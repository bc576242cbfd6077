//! The rules a glTF 2.0 model must meet to be loaded: at most one skin, a
//! matching count of inverse bind matrices, the attributes every primitive
//! needs, and which animation channels become which joint tracks. Reading
//! the file and converting its floating-point data is the caller's work;
//! the caller hands over what the document holds as plain values.

use vstd::prelude::*;
use crate::animation::Interpolation;

verus! {

#[verifier::external_type_specification]
#[verifier::external_body]
pub struct ExIoError(std::io::Error);

/// Why a model could not be loaded.
#[derive(Debug)]
pub enum ModelLoadError {
    /// The file could not be read.
    Io(std::io::Error),
    /// The file is not valid glTF; holds the parser's message.
    Parse(String),
    /// A glTF feature this loader does not support, named specifically:
    /// `"more than one skin"`, `"CUBICSPLINE interpolation"`,
    /// `"sparse accessors"`, `"non-indexed primitives"`, `"morph targets"`.
    UnsupportedFeature(&'static str),
    /// A primitive or accessor is missing data the loader requires.
    MissingData(String),
}

/// The decimal digit `d` as a character.
pub open spec fn digit_char(d: nat) -> char {
    (48 + d) as char
}

/// `n` written in decimal, as `Display` writes an unsigned integer.
pub open spec fn decimal(n: nat) -> Seq<char>
    decreases n,
{
    if n < 10 {
        seq![digit_char(n)]
    } else {
        decimal(n / 10).push(digit_char(n % 10))
    }
}

/// The message for a skin with `joints` joints but `matrices` inverse bind
/// matrices.
pub open spec fn joint_count_mismatch_text(joints: nat, matrices: nat) -> Seq<char> {
    "skin has "@ + decimal(joints) + " joints but "@ + decimal(matrices) + " inverse bind matrices"@
}

/// The name a primitive is stored under: its mesh's name, `_`, and its
/// position within the mesh.
pub open spec fn primitive_name_text(mesh: Seq<char>, index: nat) -> Seq<char> {
    mesh + "_"@ + decimal(index)
}

/// The message for a primitive (`kind` is `primitive` or
/// `skinned primitive`) that lacks the named attribute.
pub open spec fn missing_attribute_text(kind: Seq<char>, primitive: Seq<char>, attribute: Seq<char>) -> Seq<char> {
    kind + " '"@ + primitive + "' has no "@ + attribute + " attribute"@
}

/// The decimal digit `d` as a one-character string.
fn digit_str(d: usize) -> (r: &'static str)
    requires
        d < 10,
    ensures
        r@ == seq![digit_char(d as nat)],
{
    if d == 0 {
        proof { reveal_strlit("0"); }
        "0"
    } else if d == 1 {
        proof { reveal_strlit("1"); }
        "1"
    } else if d == 2 {
        proof { reveal_strlit("2"); }
        "2"
    } else if d == 3 {
        proof { reveal_strlit("3"); }
        "3"
    } else if d == 4 {
        proof { reveal_strlit("4"); }
        "4"
    } else if d == 5 {
        proof { reveal_strlit("5"); }
        "5"
    } else if d == 6 {
        proof { reveal_strlit("6"); }
        "6"
    } else if d == 7 {
        proof { reveal_strlit("7"); }
        "7"
    } else if d == 8 {
        proof { reveal_strlit("8"); }
        "8"
    } else {
        proof { reveal_strlit("9"); }
        "9"
    }
}

/// Appends `n` written in decimal to `out`.
fn push_decimal(out: &mut String, n: usize)
    ensures
        final(out)@ == old(out)@ + decimal(n as nat),
    decreases n,
{
    if n >= 10 {
        push_decimal(out, n / 10);
    }
    let ghost before = out@;
    out.append(digit_str(n % 10));
    proof {
        if n >= 10 {
            assert(decimal(n as nat) == decimal((n / 10) as nat).push(digit_char((n % 10) as nat)));
            assert(out@ =~= old(out)@ + decimal(n as nat));
        } else {
            assert(out@ =~= old(out)@ + decimal(n as nat));
        }
    }
}

/// The message for a skin whose inverse bind matrix count differs from its
/// joint count.
fn joint_count_mismatch_message(joints: usize, matrices: usize) -> (r: String)
    ensures
        r@ == joint_count_mismatch_text(joints as nat, matrices as nat),
{
    let mut r = String::new();
    r.append("skin has ");
    push_decimal(&mut r, joints);
    r.append(" joints but ");
    push_decimal(&mut r, matrices);
    r.append(" inverse bind matrices");
    assert(r@ =~= joint_count_mismatch_text(joints as nat, matrices as nat));
    r
}

/// A primitive's name: its mesh's name, `_`, and its index in decimal.
fn primitive_name(mesh: &str, index: usize) -> (r: String)
    ensures
        r@ == primitive_name_text(mesh@, index as nat),
{
    let mut r = String::new();
    r.append(mesh);
    r.append("_");
    push_decimal(&mut r, index);
    assert(r@ =~= primitive_name_text(mesh@, index as nat));
    r
}

/// The message for a primitive of the given kind that lacks an attribute.
fn missing_attribute_message(kind: &str, primitive: &str, attribute: &str) -> (r: String)
    ensures
        r@ == missing_attribute_text(kind@, primitive@, attribute@),
{
    let mut r = String::new();
    r.append(kind);
    r.append(" '");
    r.append(primitive);
    r.append("' has no ");
    r.append(attribute);
    r.append(" attribute");
    assert(r@ =~= missing_attribute_text(kind@, primitive@, attribute@));
    r
}

/// `e` is the `UnsupportedFeature` error naming `feature`.
pub open spec fn is_unsupported(e: ModelLoadError, feature: Seq<char>) -> bool {
    e matches ModelLoadError::UnsupportedFeature(f) && f@ == feature
}

/// `e` is the `MissingData` error with the message `text`.
pub open spec fn is_missing_data(e: ModelLoadError, text: Seq<char>) -> bool {
    e matches ModelLoadError::MissingData(m) && m@ == text
}

/// Which skin of a file is loaded: none when it has none, the only one
/// when it has one; a file with more than one is refused.
pub fn select_skin(skin_count: usize) -> (r: Result<Option<usize>, ModelLoadError>)
    ensures
        skin_count == 0 ==> r matches Ok(None),
        skin_count == 1 ==> (r matches Ok(Some(i)) && i == 0),
        skin_count > 1 ==> (r matches Err(e) && is_unsupported(e, "more than one skin"@)),
{
    if skin_count == 0 {
        Ok(None)
    } else if skin_count == 1 {
        Ok(Some(0))
    } else {
        Err(ModelLoadError::UnsupportedFeature("more than one skin"))
    }
}

/// A skin may omit its inverse bind matrices (each joint then binds with
/// the identity); when it has them, there must be one per joint.
pub fn check_inverse_bind_count(joint_count: usize, matrix_count: Option<usize>) -> (r: Result<(), ModelLoadError>)
    ensures
        r is Ok <==> (matrix_count is None || matrix_count == Some(joint_count)),
        match (r, matrix_count) {
            (Err(e), Some(m)) => is_missing_data(e, joint_count_mismatch_text(joint_count as nat, m as nat)),
            _ => true,
        },
{
    match matrix_count {
        None => Ok(()),
        Some(m) => {
            if m == joint_count {
                Ok(())
            } else {
                Err(ModelLoadError::MissingData(joint_count_mismatch_message(joint_count, m)))
            }
        },
    }
}

/// The last joint, among the first `upto` joints, whose children include
/// the node `node`.
pub open spec fn last_parent_among(node: usize, children: Seq<Vec<usize>>, upto: int) -> Option<usize>
    decreases upto,
{
    if upto <= 0 {
        None
    } else if children[upto - 1]@.contains(node) {
        Some((upto - 1) as usize)
    } else {
        last_parent_among(node, children, upto - 1)
    }
}

/// The parent joint of each joint: the joint, in the skin's joint list,
/// whose node lists this joint's node among its children (the last such
/// joint where several do). A joint whose node is no other joint's child is
/// a root, also when its node has a parent outside the skin.
pub open spec fn spec_joint_parents(joint_nodes: Seq<usize>, children: Seq<Vec<usize>>) -> Seq<Option<usize>> {
    Seq::new(joint_nodes.len(), |i: int| last_parent_among(joint_nodes[i], children, children.len() as int))
}

proof fn lemma_last_parent_in_range(node: usize, children: Seq<Vec<usize>>, upto: int)
    requires
        upto <= children.len(),
        upto <= usize::MAX,
    ensures
        match last_parent_among(node, children, upto) {
            Some(p) => 0 <= p < upto && children[p as int]@.contains(node),
            None => forall|q: int| 0 <= q < upto ==> !(#[trigger] children[q]@.contains(node)),
        },
    decreases upto,
{
    if upto > 0 {
        lemma_last_parent_in_range(node, children, upto - 1);
    }
}

fn vec_contains(v: &Vec<usize>, x: usize) -> (r: bool)
    ensures r == v@.contains(x),
{
    let mut i: usize = 0;
    while i < v.len()
        invariant
            i <= v@.len(),
            forall|k: int| 0 <= k < i ==> v@[k] != x,
        decreases v@.len() - i,
    {
        if v[i] == x {
            assert(v@[i as int] == x);
            return true;
        }
        i = i + 1;
    }
    false
}

/// The parent of every joint of a skin, from each joint's node index and
/// the child node indices of each joint's node (one list per joint, in
/// joint order). Every parent found is an index into the joint list.
pub fn joint_parents(joint_nodes: &Vec<usize>, children: &Vec<Vec<usize>>) -> (r: Vec<Option<usize>>)
    requires
        children@.len() == joint_nodes@.len(),
    ensures
        r@ == spec_joint_parents(joint_nodes@, children@),
        forall|i: int| 0 <= i < r@.len() ==> match #[trigger] r@[i] {
            Some(p) => (p as int) < joint_nodes@.len(),
            None => true,
        },
{
    let n = joint_nodes.len();
    let mut r: Vec<Option<usize>> = Vec::new();
    let mut i: usize = 0;
    while i < n
        invariant
            n == joint_nodes@.len(),
            children@.len() == n,
            i <= n,
            r@.len() == i,
            forall|k: int| 0 <= k < i ==> #[trigger] r@[k] == last_parent_among(joint_nodes@[k], children@, n as int),
        decreases n - i,
    {
        let node = joint_nodes[i];
        let mut found: Option<usize> = None;
        let mut p: usize = n;
        while p > 0
            invariant
                p <= n,
                children@.len() == n,
                node == joint_nodes@[i as int],
                found is None ==> last_parent_among(node, children@, n as int) == last_parent_among(node, children@, p as int),
                found is Some ==> last_parent_among(node, children@, n as int) == found,
            decreases p,
        {
            if found.is_none() {
                if vec_contains(&children[p - 1], node) {
                    found = Some(p - 1);
                }
            }
            p = p - 1;
        }
        r.push(found);
        i = i + 1;
    }
    proof {
        assert forall|k: int| 0 <= k < r@.len() implies match #[trigger] r@[k] {
            Some(p) => (p as int) < joint_nodes@.len(),
            None => true,
        } by {
            lemma_last_parent_in_range(joint_nodes@[k], children@, n as int);
        }
    }
    assert(r@ =~= spec_joint_parents(joint_nodes@, children@));
    r
}

/// For every node of the document, whether it is bound to the loaded skin.
/// With no skin, no node is.
pub fn skinned_nodes(node_skins: &Vec<Option<usize>>, skin: Option<usize>) -> (r: Vec<bool>)
    ensures
        r@.len() == node_skins@.len(),
        forall|i: int| 0 <= i < r@.len() ==> #[trigger] r@[i] == (skin is Some && node_skins@[i] == skin),
{
    let mut r: Vec<bool> = Vec::new();
    let mut i: usize = 0;
    while i < node_skins.len()
        invariant
            i <= node_skins@.len(),
            r@.len() == i,
            forall|k: int| 0 <= k < i ==> #[trigger] r@[k] == (skin is Some && node_skins@[k] == skin),
        decreases node_skins@.len() - i,
    {
        let b = match (node_skins[i], skin) {
            (Some(a), Some(s)) => a == s,
            _ => false,
        };
        r.push(b);
        i = i + 1;
    }
    r
}

/// Whether one accessor of a primitive is there, and whether it is sparse.
#[derive(Copy, Clone, Debug, PartialEq, Eq, Structural)]
pub enum AccessorState {
    Missing,
    Dense,
    Sparse,
}

/// The accessors of one primitive that loading reads.
#[derive(Copy, Clone, Debug, PartialEq, Eq, Structural)]
pub struct PrimitiveAccessors {
    pub positions: AccessorState,
    pub normals: AccessorState,
    pub tex_coords: AccessorState,
    pub indices: AccessorState,
    pub joints: AccessorState,
    pub weights: AccessorState,
}

/// The first reason, in the order the loader checks, why a primitive
/// cannot be loaded.
#[derive(Copy, Clone, Debug, PartialEq, Eq, Structural)]
pub enum PrimitiveIssue {
    SparsePositions,
    NoPositions,
    NoNormals,
    NoTexCoords,
    NotIndexed,
    SparseJoints,
    SparseWeights,
    NoJoints,
    NoWeights,
}

/// Positions must be dense and present, normals, the first texture
/// coordinates and indices present (tangents may be absent); a skinned
/// primitive also needs dense joints and weights.
pub open spec fn spec_primitive_issue(a: PrimitiveAccessors, skinned: bool) -> Option<PrimitiveIssue> {
    if a.positions == AccessorState::Sparse {
        Some(PrimitiveIssue::SparsePositions)
    } else if a.positions == AccessorState::Missing {
        Some(PrimitiveIssue::NoPositions)
    } else if a.normals == AccessorState::Missing {
        Some(PrimitiveIssue::NoNormals)
    } else if a.tex_coords == AccessorState::Missing {
        Some(PrimitiveIssue::NoTexCoords)
    } else if a.indices == AccessorState::Missing {
        Some(PrimitiveIssue::NotIndexed)
    } else if !skinned {
        None
    } else if a.joints == AccessorState::Sparse {
        Some(PrimitiveIssue::SparseJoints)
    } else if a.weights == AccessorState::Sparse {
        Some(PrimitiveIssue::SparseWeights)
    } else if a.joints == AccessorState::Missing {
        Some(PrimitiveIssue::NoJoints)
    } else if a.weights == AccessorState::Missing {
        Some(PrimitiveIssue::NoWeights)
    } else {
        None
    }
}

/// The error the loader reports for `issue` on the primitive named `name`.
pub open spec fn issue_error(e: ModelLoadError, issue: PrimitiveIssue, name: Seq<char>) -> bool {
    match issue {
        PrimitiveIssue::SparsePositions => is_unsupported(e, "sparse accessors"@),
        PrimitiveIssue::SparseJoints => is_unsupported(e, "sparse accessors"@),
        PrimitiveIssue::SparseWeights => is_unsupported(e, "sparse accessors"@),
        PrimitiveIssue::NotIndexed => is_unsupported(e, "non-indexed primitives"@),
        PrimitiveIssue::NoPositions => is_missing_data(e, missing_attribute_text("primitive"@, name, "POSITION"@)),
        PrimitiveIssue::NoNormals => is_missing_data(e, missing_attribute_text("primitive"@, name, "NORMAL"@)),
        PrimitiveIssue::NoTexCoords => is_missing_data(e, missing_attribute_text("primitive"@, name, "TEXCOORD_0"@)),
        PrimitiveIssue::NoJoints => is_missing_data(e, missing_attribute_text("skinned primitive"@, name, "JOINTS_0"@)),
        PrimitiveIssue::NoWeights => is_missing_data(e, missing_attribute_text("skinned primitive"@, name, "WEIGHTS_0"@)),
    }
}

fn missing(primitive: &String, attribute: &str) -> (r: ModelLoadError)
    ensures is_missing_data(r, missing_attribute_text("primitive"@, primitive@, attribute@)),
{
    ModelLoadError::MissingData(missing_attribute_message("primitive", primitive.as_str(), attribute))
}

fn missing_skinned(primitive: &String, attribute: &str) -> (r: ModelLoadError)
    ensures is_missing_data(r, missing_attribute_text("skinned primitive"@, primitive@, attribute@)),
{
    ModelLoadError::MissingData(missing_attribute_message("skinned primitive", primitive.as_str(), attribute))
}

/// Checks the `index`-th primitive of the mesh named `mesh` and gives back
/// the name its geometry is stored under; on the first problem, in the
/// loader's order, the error that names it.
pub fn check_primitive(mesh: &str, index: usize, accessors: PrimitiveAccessors, skinned: bool) -> (r: Result<String, ModelLoadError>)
    ensures
        match r {
            Ok(name) => spec_primitive_issue(accessors, skinned) is None
                && name@ == primitive_name_text(mesh@, index as nat),
            Err(e) => match spec_primitive_issue(accessors, skinned) {
                Some(issue) => issue_error(e, issue, primitive_name_text(mesh@, index as nat)),
                None => false,
            },
        },
{
    let name = primitive_name(mesh, index);
    if accessors.positions == AccessorState::Sparse {
        return Err(ModelLoadError::UnsupportedFeature("sparse accessors"));
    }
    if accessors.positions == AccessorState::Missing {
        return Err(missing(&name, "POSITION"));
    }
    if accessors.normals == AccessorState::Missing {
        return Err(missing(&name, "NORMAL"));
    }
    if accessors.tex_coords == AccessorState::Missing {
        return Err(missing(&name, "TEXCOORD_0"));
    }
    if accessors.indices == AccessorState::Missing {
        return Err(ModelLoadError::UnsupportedFeature("non-indexed primitives"));
    }
    if skinned {
        if accessors.joints == AccessorState::Sparse || accessors.weights == AccessorState::Sparse {
            return Err(ModelLoadError::UnsupportedFeature("sparse accessors"));
        }
        if accessors.joints == AccessorState::Missing {
            return Err(missing_skinned(&name, "JOINTS_0"));
        }
        if accessors.weights == AccessorState::Missing {
            return Err(missing_skinned(&name, "WEIGHTS_0"));
        }
    }
    Ok(name)
}

/// The interpolation a glTF animation sampler names.
#[derive(Copy, Clone, Debug, PartialEq, Eq, Structural)]
pub enum SamplerInterpolation {
    Linear,
    Step,
    CubicSpline,
}

/// What the output values of an animation channel animate.
#[derive(Copy, Clone, Debug, PartialEq, Eq, Structural)]
pub enum ChannelProperty {
    Translation,
    Rotation,
    Scale,
    MorphTargetWeights,
}

/// One animation channel of a clip, as far as the rules read it.
#[derive(Copy, Clone, Debug, PartialEq, Eq, Structural)]
pub struct ChannelInfo {
    /// The skeleton joint named like the channel's target node, if any; a
    /// channel that targets no joint is skipped.
    pub joint: Option<usize>,
    pub interpolation: SamplerInterpolation,
    /// Whether the channel has keyframe times.
    pub has_times: bool,
    /// What its keyframe values animate, or `None` when it has no values.
    pub property: Option<ChannelProperty>,
}

/// Where one property of a joint track takes its keyframes from: the
/// channel at this position of the clip, and the interpolation to use.
#[derive(Copy, Clone, Debug, PartialEq, Eq, Structural)]
pub struct PropertySource {
    pub channel: usize,
    pub interpolation: Interpolation,
}

/// One joint's track: for each of translation, rotation and scale, the
/// channel that animates it, or `None` (no keyframes, linear).
#[derive(Copy, Clone, Debug, PartialEq, Eq, Structural)]
pub struct TrackPlan {
    pub joint_index: usize,
    pub translation: Option<PropertySource>,
    pub rotation: Option<PropertySource>,
    pub scale: Option<PropertySource>,
}

/// Why an animation channel cannot be loaded.
#[derive(Copy, Clone, Debug, PartialEq, Eq, Structural)]
pub enum ChannelIssue {
    CubicSpline,
    NoTimes,
    NoValues,
    MorphTargets,
}

/// A channel that targets a joint must use linear or step interpolation,
/// have keyframe times and values, and animate no morph target weights.
pub open spec fn spec_channel_issue(c: ChannelInfo) -> Option<ChannelIssue> {
    if c.joint is None {
        None
    } else if c.interpolation == SamplerInterpolation::CubicSpline {
        Some(ChannelIssue::CubicSpline)
    } else if !c.has_times {
        Some(ChannelIssue::NoTimes)
    } else if c.property is None {
        Some(ChannelIssue::NoValues)
    } else if c.property == Some(ChannelProperty::MorphTargetWeights) {
        Some(ChannelIssue::MorphTargets)
    } else {
        None
    }
}

/// The error the loader reports for a channel with `issue`.
pub open spec fn channel_error(e: ModelLoadError, issue: ChannelIssue) -> bool {
    match issue {
        ChannelIssue::CubicSpline => is_unsupported(e, "CUBICSPLINE interpolation"@),
        ChannelIssue::NoTimes => is_missing_data(e, "animation channel has no keyframe times"@),
        ChannelIssue::NoValues => is_missing_data(e, "animation channel has no keyframe values"@),
        ChannelIssue::MorphTargets => is_unsupported(e, "morph targets"@),
    }
}

pub open spec fn spec_interpolation(i: SamplerInterpolation) -> Interpolation {
    match i {
        SamplerInterpolation::Step => Interpolation::Step,
        _ => Interpolation::Linear,
    }
}

/// The position of the first track of `joint` at or after `k`, or the
/// number of tracks when there is none.
pub open spec fn find_track(plans: Seq<TrackPlan>, joint: usize, k: int) -> int
    decreases plans.len() - k,
{
    if k >= plans.len() {
        plans.len() as int
    } else if plans[k].joint_index == joint {
        k
    } else {
        find_track(plans, joint, k + 1)
    }
}

/// `t` with `property` taken from `source`.
pub open spec fn with_property(t: TrackPlan, property: ChannelProperty, source: PropertySource) -> TrackPlan {
    match property {
        ChannelProperty::Translation => TrackPlan { translation: Some(source), ..t },
        ChannelProperty::Rotation => TrackPlan { rotation: Some(source), ..t },
        ChannelProperty::Scale => TrackPlan { scale: Some(source), ..t },
        ChannelProperty::MorphTargetWeights => t,
    }
}

/// A track of `joint` that animates nothing yet.
pub open spec fn empty_track(joint: usize) -> TrackPlan {
    TrackPlan { joint_index: joint, translation: None, rotation: None, scale: None }
}

/// The tracks after the channel at position `index`: it sets its property
/// on its joint's track, which is added at the end on the joint's first
/// channel; a later channel for the same property replaces an earlier one.
pub open spec fn apply_channel(plans: Seq<TrackPlan>, c: ChannelInfo, index: int) -> Seq<TrackPlan> {
    match (c.joint, c.property) {
        (Some(j), Some(p)) => {
            let source = PropertySource { channel: index as usize, interpolation: spec_interpolation(c.interpolation) };
            let k = find_track(plans, j, 0);
            if k < plans.len() {
                plans.update(k, with_property(plans[k], p, source))
            } else {
                plans.push(with_property(empty_track(j), p, source))
            }
        },
        _ => plans,
    }
}

/// The tracks of a clip whose channels are `channels`, one per animated
/// joint, in the order the joints first appear.
pub open spec fn spec_plan_tracks(channels: Seq<ChannelInfo>) -> Seq<TrackPlan>
    decreases channels.len(),
{
    if channels.len() == 0 {
        Seq::empty()
    } else {
        apply_channel(spec_plan_tracks(channels.drop_last()), channels.last(), channels.len() - 1)
    }
}

/// The source a track takes `p` from (`None` for morph target weights,
/// which no track holds).
pub open spec fn track_source(t: TrackPlan, p: ChannelProperty) -> Option<PropertySource> {
    match p {
        ChannelProperty::Translation => t.translation,
        ChannelProperty::Rotation => t.rotation,
        ChannelProperty::Scale => t.scale,
        ChannelProperty::MorphTargetWeights => None,
    }
}

/// Channel `c` animates property `p` of joint `joint`.
pub open spec fn animates(c: ChannelInfo, joint: usize, p: ChannelProperty) -> bool {
    c.joint == Some(joint) && c.property == Some(p)
}

/// Every channel of a clip can be loaded.
pub open spec fn channels_loadable(channels: Seq<ChannelInfo>) -> bool {
    forall|k: int| 0 <= k < channels.len() ==> (#[trigger] spec_channel_issue(channels[k])) is None
}

/// No two tracks belong to one joint.
pub open spec fn tracks_distinct(plans: Seq<TrackPlan>) -> bool {
    forall|i: int, j: int| #![trigger plans[i], plans[j]]
        0 <= i < j < plans.len() ==> plans[i].joint_index != plans[j].joint_index
}

/// Every channel that targets a joint has a track for that joint.
pub open spec fn tracks_cover(channels: Seq<ChannelInfo>, plans: Seq<TrackPlan>) -> bool {
    forall|k: int| 0 <= k < channels.len() && (#[trigger] channels[k]).joint is Some
        ==> exists|i: int| 0 <= i < plans.len() && Some((#[trigger] plans[i]).joint_index) == channels[k].joint
}

/// Every track belongs to a joint some channel targets.
pub open spec fn tracks_targeted(channels: Seq<ChannelInfo>, plans: Seq<TrackPlan>) -> bool {
    forall|i: int| 0 <= i < plans.len()
        ==> exists|k: int| 0 <= k < channels.len() && (#[trigger] channels[k]).joint == Some((#[trigger] plans[i]).joint_index)
}

/// Property `p` of a track of `joint` with source `src` agrees with the
/// channels: it comes from the last channel that animates `p` of `joint`,
/// and steps exactly when that channel's sampler steps; with no source, no
/// channel animates it.
pub open spec fn source_agrees(channels: Seq<ChannelInfo>, joint: usize, p: ChannelProperty, src: Option<PropertySource>) -> bool {
    match src {
        Some(s) => {
            &&& (s.channel as int) < channels.len()
            &&& animates(channels[s.channel as int], joint, p)
            &&& (s.interpolation == Interpolation::Step
                <==> channels[s.channel as int].interpolation == SamplerInterpolation::Step)
            &&& forall|k: int| s.channel < k < channels.len() ==> !animates(#[trigger] channels[k], joint, p)
        },
        None => forall|k: int| 0 <= k < channels.len() ==> !animates(#[trigger] channels[k], joint, p),
    }
}

/// Every property of every track agrees with the channels.
pub open spec fn tracks_sourced(channels: Seq<ChannelInfo>, plans: Seq<TrackPlan>) -> bool {
    forall|i: int, p: ChannelProperty| 0 <= i < plans.len() && p != ChannelProperty::MorphTargetWeights ==>
        source_agrees(channels, plans[i].joint_index, p, #[trigger] track_source(plans[i], p))
}

/// What the tracks planned for `channels` say of them: one track per
/// animated joint, and each property of a track comes from the last
/// channel that animates that property of that joint, played back with a
/// step exactly when that channel's sampler steps; a property no channel
/// animates has no source.
pub open spec fn tracks_follow_channels(channels: Seq<ChannelInfo>, plans: Seq<TrackPlan>) -> bool {
    &&& tracks_distinct(plans)
    &&& tracks_cover(channels, plans)
    &&& tracks_targeted(channels, plans)
    &&& tracks_sourced(channels, plans)
}

proof fn lemma_find_track(plans: Seq<TrackPlan>, joint: usize, m: int)
    requires
        0 <= m <= plans.len(),
    ensures
        m <= find_track(plans, joint, m) <= plans.len(),
        find_track(plans, joint, m) < plans.len() ==> plans[find_track(plans, joint, m)].joint_index == joint,
        forall|i: int| m <= i < find_track(plans, joint, m) ==> plans[i].joint_index != joint,
    decreases plans.len() - m,
{
    if m < plans.len() && plans[m].joint_index != joint {
        lemma_find_track(plans, joint, m + 1);
    }
}

/// A source that agreed with the channels before one more channel agrees
/// after it, when that channel does not animate the property.
proof fn lemma_source_extends(channels: Seq<ChannelInfo>, joint: usize, p: ChannelProperty, src: Option<PropertySource>)
    requires
        channels.len() > 0,
        source_agrees(channels.drop_last(), joint, p, src),
        !animates(channels.last(), joint, p),
    ensures
        source_agrees(channels, joint, p, src),
{
    let prev = channels.drop_last();
    let n = channels.len() - 1;
    assert forall|k: int| 0 <= k < n implies #[trigger] channels[k] == prev[k] by {}
    match src {
        Some(s) => {
            assert(channels[s.channel as int] == prev[s.channel as int]);
            assert forall|k: int| s.channel < k < channels.len() implies !animates(#[trigger] channels[k], joint, p) by {
                if k < n { assert(channels[k] == prev[k]); }
            }
        },
        None => {
            assert forall|k: int| 0 <= k < channels.len() implies !animates(#[trigger] channels[k], joint, p) by {
                if k < n { assert(channels[k] == prev[k]); }
            }
        },
    }
}

/// The tracks planned for a clip whose channels can all be loaded give one
/// track per animated joint, and each property of a track comes from the
/// last channel that animates it, stepping exactly when that channel's
/// sampler steps (see [`tracks_follow_channels`]).
pub proof fn lemma_planned_tracks(channels: Seq<ChannelInfo>)
    requires
        channels_loadable(channels),
        channels.len() <= usize::MAX,
    ensures
        tracks_follow_channels(channels, spec_plan_tracks(channels)),
    decreases channels.len(),
{
    if channels.len() == 0 {
        return;
    }
    let n = channels.len() - 1;
    let prev = channels.drop_last();
    let c = channels.last();
    assert forall|k: int| 0 <= k < prev.len() implies (#[trigger] spec_channel_issue(prev[k])) is None by {
        assert(prev[k] == channels[k]);
    }
    lemma_planned_tracks(prev);
    let pp = spec_plan_tracks(prev);
    let q = spec_plan_tracks(channels);
    assert(q == apply_channel(pp, c, n));
    assert(spec_channel_issue(channels[n]) is None);
    assert forall|k: int| 0 <= k < n implies #[trigger] channels[k] == prev[k] by {}
    match c.joint {
        None => {
            assert(q == pp);
            lemma_tracks_skip(channels, pp);
        },
        Some(j) => {
            let p = c.property.unwrap();
            assert(p != ChannelProperty::MorphTargetWeights);
            let source = PropertySource { channel: n as usize, interpolation: spec_interpolation(c.interpolation) };
            lemma_find_track(pp, j, 0);
            let t = find_track(pp, j, 0);
            assert(t < pp.len() ==> q == pp.update(t, with_property(pp[t], p, source)));
            assert(t == pp.len() ==> q == pp.push(with_property(empty_track(j), p, source)));
            lemma_tracks_joints(channels, pp, q, j, p, source, t);
            lemma_tracks_sources(channels, pp, q, j, p, source, t);
        },
    }
}

/// A channel that targets no joint leaves the tracks as they agree.
proof fn lemma_tracks_skip(channels: Seq<ChannelInfo>, pp: Seq<TrackPlan>)
    requires
        channels.len() > 0,
        tracks_follow_channels(channels.drop_last(), pp),
        channels.last().joint is None,
    ensures
        tracks_follow_channels(channels, pp),
{
    let prev = channels.drop_last();
    let n = channels.len() - 1;
    assert forall|k: int| 0 <= k < n implies #[trigger] channels[k] == prev[k] by {}
    assert forall|k: int| 0 <= k < channels.len() && (#[trigger] channels[k]).joint is Some implies
        exists|i: int| 0 <= i < pp.len() && Some((#[trigger] pp[i]).joint_index) == channels[k].joint by {
        assert(channels[k] == prev[k]);
    }
    assert forall|i: int| 0 <= i < pp.len() implies exists|k: int| 0 <= k < channels.len()
        && (#[trigger] channels[k]).joint == Some((#[trigger] pp[i]).joint_index) by {
        let k = choose|k: int| 0 <= k < prev.len() && (#[trigger] prev[k]).joint == Some(pp[i].joint_index);
        assert(channels[k] == prev[k]);
    }
    assert forall|i: int, p: ChannelProperty| 0 <= i < pp.len() && p != ChannelProperty::MorphTargetWeights implies
        source_agrees(channels, pp[i].joint_index, p, #[trigger] track_source(pp[i], p)) by {
        lemma_source_extends(channels, pp[i].joint_index, p, track_source(pp[i], p));
    }
}

proof fn lemma_tracks_joints(
    channels: Seq<ChannelInfo>,
    pp: Seq<TrackPlan>,
    q: Seq<TrackPlan>,
    j: usize,
    p: ChannelProperty,
    source: PropertySource,
    t: int,
)
    requires
        channels.len() > 0,
        tracks_distinct(pp),
        tracks_cover(channels.drop_last(), pp),
        tracks_targeted(channels.drop_last(), pp),
        channels.last().joint == Some(j),
        0 <= t <= pp.len(),
        t < pp.len() ==> pp[t].joint_index == j,
        forall|i: int| 0 <= i < t ==> pp[i].joint_index != j,
        t < pp.len() ==> q == pp.update(t, with_property(pp[t], p, source)),
        t == pp.len() ==> q == pp.push(with_property(empty_track(j), p, source)),
    ensures
        tracks_distinct(q),
        tracks_cover(channels, q),
        tracks_targeted(channels, q),
{
    let prev = channels.drop_last();
    let n = channels.len() - 1;
    assert forall|k: int| 0 <= k < n implies #[trigger] channels[k] == prev[k] by {}
    assert(q.len() == if t < pp.len() { pp.len() } else { pp.len() + 1 });
    assert forall|i: int| 0 <= i < q.len() implies (#[trigger] q[i]).joint_index == (if i < pp.len() { pp[i].joint_index } else { j }) by {}
    if t == pp.len() {
        assert forall|i: int| 0 <= i < pp.len() implies #[trigger] pp[i].joint_index != j by {}
    }
    assert forall|a: int, b: int| #![trigger q[a], q[b]] 0 <= a < b < q.len() implies q[a].joint_index != q[b].joint_index by {
        if b < pp.len() {
            assert(pp[a].joint_index != pp[b].joint_index);
        } else {
            assert(pp[a].joint_index != j);
        }
    }
    assert forall|k: int| 0 <= k < channels.len() && (#[trigger] channels[k]).joint is Some implies
        exists|i: int| 0 <= i < q.len() && Some((#[trigger] q[i]).joint_index) == channels[k].joint by {
        if k == n {
            assert(Some(q[t].joint_index) == channels[k].joint);
        } else {
            assert(channels[k] == prev[k]);
            let i = choose|i: int| 0 <= i < pp.len() && Some((#[trigger] pp[i]).joint_index) == prev[k].joint;
            assert(Some(q[i].joint_index) == channels[k].joint);
        }
    }
    assert forall|i: int| 0 <= i < q.len() implies exists|k: int| 0 <= k < channels.len()
        && (#[trigger] channels[k]).joint == Some((#[trigger] q[i]).joint_index) by {
        if i < pp.len() && i != t {
            let k = choose|k: int| 0 <= k < prev.len() && (#[trigger] prev[k]).joint == Some(pp[i].joint_index);
            assert(channels[k] == prev[k]);
        } else {
            assert(channels[n].joint == Some(q[i].joint_index));
        }
    }
}

proof fn lemma_tracks_sources(
    channels: Seq<ChannelInfo>,
    pp: Seq<TrackPlan>,
    q: Seq<TrackPlan>,
    j: usize,
    p: ChannelProperty,
    source: PropertySource,
    t: int,
)
    requires
        channels.len() > 0,
        channels.len() - 1 <= usize::MAX,
        tracks_distinct(pp),
        tracks_cover(channels.drop_last(), pp),
        tracks_sourced(channels.drop_last(), pp),
        channels.last().joint == Some(j),
        channels.last().property == Some(p),
        p != ChannelProperty::MorphTargetWeights,
        channels.last().interpolation != SamplerInterpolation::CubicSpline,
        source == (PropertySource { channel: (channels.len() - 1) as usize, interpolation: spec_interpolation(channels.last().interpolation) }),
        0 <= t <= pp.len(),
        t < pp.len() ==> pp[t].joint_index == j,
        forall|i: int| 0 <= i < t ==> pp[i].joint_index != j,
        t < pp.len() ==> q == pp.update(t, with_property(pp[t], p, source)),
        t == pp.len() ==> q == pp.push(with_property(empty_track(j), p, source)),
    ensures
        tracks_sourced(channels, q),
{
    let prev = channels.drop_last();
    let n = channels.len() - 1;
    let c = channels.last();
    assert(channels[n] == c);
    assert forall|k: int| 0 <= k < n implies #[trigger] channels[k] == prev[k] by {}
    if t < pp.len() {
        assert forall|i: int| 0 <= i < pp.len() && i != t implies #[trigger] pp[i].joint_index != j by {
            if i > t { assert(pp[t].joint_index != pp[i].joint_index); }
        }
    } else {
        assert forall|i: int| 0 <= i < pp.len() implies #[trigger] pp[i].joint_index != j by {}
        assert forall|k: int| 0 <= k < prev.len() implies (#[trigger] prev[k]).joint != Some(j) by {
            if prev[k].joint == Some(j) {
                let i = choose|i: int| 0 <= i < pp.len() && Some((#[trigger] pp[i]).joint_index) == prev[k].joint;
            }
        }
    }
    assert forall|i: int, p2: ChannelProperty| 0 <= i < q.len() && p2 != ChannelProperty::MorphTargetWeights implies
        source_agrees(channels, q[i].joint_index, p2, #[trigger] track_source(q[i], p2)) by {
        if i == t && p2 == p {
            assert(track_source(q[i], p2) == Some(source));
            assert(channels[source.channel as int] == c);
        } else if i < pp.len() {
            assert(track_source(q[i], p2) == track_source(pp[i], p2));
            assert(q[i].joint_index == pp[i].joint_index);
            assert(source_agrees(prev, pp[i].joint_index, p2, track_source(pp[i], p2)));
            lemma_source_extends(channels, q[i].joint_index, p2, track_source(q[i], p2));
        } else {
            assert(track_source(q[i], p2) is None);
            assert forall|k: int| 0 <= k < channels.len() implies !animates(#[trigger] channels[k], q[i].joint_index, p2) by {
                if k < n { assert(channels[k] == prev[k]); assert(prev[k].joint != Some(j)); }
            }
        }
    }
}

/// The channel at position `k` is the first that cannot be loaded, and `e`
/// is the error that names why.
pub open spec fn fails_first_at(channels: Seq<ChannelInfo>, k: int, e: ModelLoadError) -> bool {
    &&& 0 <= k < channels.len()
    &&& forall|j: int| 0 <= j < k ==> (#[trigger] spec_channel_issue(channels[j])) is None
    &&& spec_channel_issue(channels[k]) matches Some(issue) && channel_error(e, issue)
}

/// Groups the channels of one clip into per-joint tracks; on the first
/// channel, in order, that cannot be loaded, the error that names why.
pub fn plan_tracks(channels: &Vec<ChannelInfo>) -> (r: Result<Vec<TrackPlan>, ModelLoadError>)
    requires
        channels@.len() <= usize::MAX,
    ensures
        r is Ok <==> forall|k: int| 0 <= k < channels@.len() ==> (#[trigger] spec_channel_issue(channels@[k])) is None,
        match r {
            Ok(plans) => plans@ == spec_plan_tracks(channels@) && tracks_follow_channels(channels@, plans@),
            Err(e) => exists|k: int| #[trigger] fails_first_at(channels@, k, e),
        },
{
    let mut plans: Vec<TrackPlan> = Vec::new();
    let mut i: usize = 0;
    while i < channels.len()
        invariant
            i <= channels@.len(),
            plans@ == spec_plan_tracks(channels@.subrange(0, i as int)),
            forall|k: int| 0 <= k < i ==> (#[trigger] spec_channel_issue(channels@[k])) is None,
        decreases channels@.len() - i,
    {
        let c = channels[i];
        let ghost before = plans@;
        assert(channels@.subrange(0, i + 1).drop_last() =~= channels@.subrange(0, i as int));
        assert(channels@.subrange(0, i + 1).last() == c);
        match c.joint {
            None => {},
            Some(j) => {
                if c.interpolation == SamplerInterpolation::CubicSpline {
                    let e = ModelLoadError::UnsupportedFeature("CUBICSPLINE interpolation");
                    assert(fails_first_at(channels@, i as int, e));
                    return Err(e);
                }
                if !c.has_times {
                    let e = ModelLoadError::MissingData("animation channel has no keyframe times".to_string());
                    assert(fails_first_at(channels@, i as int, e));
                    return Err(e);
                }
                let property = match c.property {
                    None => {
                        let e = ModelLoadError::MissingData("animation channel has no keyframe values".to_string());
                    assert(fails_first_at(channels@, i as int, e));
                    return Err(e);
                    },
                    Some(p) => p,
                };
                if property == ChannelProperty::MorphTargetWeights {
                    let e = ModelLoadError::UnsupportedFeature("morph targets");
                    assert(fails_first_at(channels@, i as int, e));
                    return Err(e);
                }
                let interpolation = if c.interpolation == SamplerInterpolation::Step {
                    Interpolation::Step
                } else {
                    Interpolation::Linear
                };
                let source = PropertySource { channel: i, interpolation };
                let mut k: usize = 0;
                while k < plans.len() && plans[k].joint_index != j
                    invariant
                        k <= plans@.len(),
                        find_track(plans@, j, 0) == find_track(plans@, j, k as int),
                    decreases plans@.len() - k,
                {
                    k = k + 1;
                }
                let base = if k < plans.len() {
                    plans[k]
                } else {
                    TrackPlan { joint_index: j, translation: None, rotation: None, scale: None }
                };
                let updated = match property {
                    ChannelProperty::Translation => TrackPlan { translation: Some(source), ..base },
                    ChannelProperty::Rotation => TrackPlan { rotation: Some(source), ..base },
                    _ => TrackPlan { scale: Some(source), ..base },
                };
                if k < plans.len() {
                    plans.set(k, updated);
                } else {
                    plans.push(updated);
                }
            },
        }
        i = i + 1;
    }
    assert(channels@.subrange(0, channels@.len() as int) =~= channels@);
    proof { lemma_planned_tracks(channels@); }
    Ok(plans)
}

} // verus!

//! Which profiles a session gets.

use vstd::prelude::*;
use vstd::utf8::{encode_utf8, encode_utf8_decode_utf8};

use crate::decoder::same_text;
use crate::protocol::ERROR_UNSUPPORTED_PROFILE;
use crate::session::{has_profile, includes};

verus! {

/// Whether bytes come before others, compared from the first on.
pub open spec fn bytes_before(left: Seq<u8>, right: Seq<u8>) -> bool
    decreases left.len(),
{
    if right.len() == 0 {
        false
    } else if left.len() == 0 {
        true
    } else if left[0] != right[0] {
        left[0] < right[0]
    } else {
        bytes_before(left.drop_first(), right.drop_first())
    }
}

proof fn lemma_before_irreflexive(bytes: Seq<u8>)
    ensures
        !bytes_before(bytes, bytes),
    decreases bytes.len(),
{
    if bytes.len() > 0 {
        lemma_before_irreflexive(bytes.drop_first());
    }
}

proof fn lemma_before_total(left: Seq<u8>, right: Seq<u8>)
    ensures
        left == right || bytes_before(left, right) || bytes_before(right, left),
    decreases left.len(),
{
    if left.len() == 0 && right.len() == 0 {
        assert(left =~= right);
    } else if left.len() > 0 && right.len() > 0 && left[0] == right[0] {
        lemma_before_total(left.drop_first(), right.drop_first());
        if left.drop_first() == right.drop_first() {
            assert(left =~= seq![left[0]] + left.drop_first());
            assert(right =~= seq![right[0]] + right.drop_first());
        }
    }
}

proof fn lemma_before_transitive(left: Seq<u8>, middle: Seq<u8>, right: Seq<u8>)
    requires
        bytes_before(left, middle),
        bytes_before(middle, right),
    ensures
        bytes_before(left, right),
    decreases left.len(),
{
    if left.len() > 0 && middle.len() > 0 && right.len() > 0 && left[0] == middle[0] && middle[0]
        == right[0] {
        lemma_before_transitive(left.drop_first(), middle.drop_first(), right.drop_first());
    }
}

/// Whether a text comes before another, by its bytes.
pub open spec fn text_before(left: Seq<char>, right: Seq<char>) -> bool {
    bytes_before(encode_utf8(left), encode_utf8(right))
}

/// Whether a text comes before another.
fn precedes(left: &str, right: &str) -> (r: bool)
    ensures
        r == text_before(left@, right@),
{
    let left_bytes = left.as_bytes();
    let right_bytes = right.as_bytes();
    let ghost l = encode_utf8(left@);
    let ghost r = encode_utf8(right@);
    let mut index: usize = 0;
    assert(l.skip(0) =~= l);
    assert(r.skip(0) =~= r);
    while index < left_bytes.len() && index < right_bytes.len() && left_bytes[index]
        == right_bytes[index]
        invariant
            left_bytes@ == l,
            right_bytes@ == r,
            index <= l.len(),
            index <= r.len(),
            bytes_before(l, r) == bytes_before(l.skip(index as int), r.skip(index as int)),
        decreases l.len() - index,
    {
        proof {
            assert(l.skip(index as int).drop_first() =~= l.skip(index + 1));
            assert(r.skip(index as int).drop_first() =~= r.skip(index + 1));
        }
        index = index + 1;
    }
    if index >= right_bytes.len() {
        false
    } else if index >= left_bytes.len() {
        true
    } else {
        left_bytes[index] < right_bytes[index]
    }
}

/// Whether profiles stand in strictly ascending order, so that none occurs twice.
pub open spec fn ascending(profiles: Seq<String>) -> bool {
    forall|i: int, j: int|
        0 <= i < j < profiles.len() ==> text_before(#[trigger] profiles[i]@, #[trigger] profiles[j]@)
}

/// Put a profile where it belongs, unless it is there already.
fn insert_ascending(profiles: &mut Vec<String>, profile: &String)
    requires
        ascending(old(profiles)@),
    ensures
        ascending(final(profiles)@),
        forall|name: Seq<char>| #[trigger]
            has_profile(final(profiles)@, name) <==> has_profile(old(profiles)@, name) || name
                == profile@,
{
    let ghost before = profiles@;
    let mut index: usize = 0;
    while index < profiles.len() && precedes(profiles[index].as_str(), profile.as_str())
        invariant
            profiles@ == before,
            index <= before.len(),
            forall|i: int| 0 <= i < index ==> text_before(#[trigger] before[i]@, profile@),
        decreases before.len() - index,
    {
        index = index + 1;
    }
    if index < profiles.len() && same_text(profiles[index].as_str(), profile.as_str()) {
        proof {
            assert(before[index as int]@ == profile@);
            assert(has_profile(before, profile@));
        }
        return;
    }
    let copy = profile.clone();
    profiles.insert(index, copy);
    proof {
        let after = profiles@;
        assert(after == before.insert(index as int, copy));
        assert forall|k: int| index <= k < before.len() implies text_before(
            profile@,
            #[trigger] before[k]@,
        ) by {
            let first = before[index as int]@;
            lemma_before_total(encode_utf8(first), encode_utf8(profile@));
            if encode_utf8(first) == encode_utf8(profile@) {
                encode_utf8_decode_utf8(first);
                encode_utf8_decode_utf8(profile@);
            }
            if k > index {
                lemma_before_transitive(
                    encode_utf8(profile@),
                    encode_utf8(first),
                    encode_utf8(before[k]@),
                );
            }
        }
        assert forall|i: int, j: int| 0 <= i < j < after.len() implies text_before(
            #[trigger] after[i]@,
            #[trigger] after[j]@,
        ) by {
            let left = if i < index { i } else { i - 1 };
            let right = if j < index { j } else { j - 1 };
            if i != index {
                assert(after[i] == before[left]);
            }
            if j != index {
                assert(after[j] == before[right]);
            }
        }
        assert forall|name: Seq<char>| #[trigger] has_profile(after, name) <==> has_profile(
            before,
            name,
        ) || name == profile@ by {
            if has_profile(before, name) {
                let i = choose|i: int| 0 <= i < before.len() && (#[trigger] before[i])@ == name;
                let target = if i < index { i } else { i + 1 };
                assert(after[target]@ == name);
            }
            if name == profile@ {
                assert(after[index as int]@ == name);
            }
            if has_profile(after, name) && name != profile@ {
                let i = choose|i: int| 0 <= i < after.len() && (#[trigger] after[i])@ == name;
                let source = if i < index { i } else { i - 1 };
                assert(before[source]@ == name);
            }
        }
    }
}

/// Whether every one of these profiles is supported.
pub open spec fn all_supported(profiles: Seq<String>, supported: Seq<String>) -> bool {
    forall|i: int| 0 <= i < profiles.len() ==> has_profile(supported, (#[trigger] profiles[i])@)
}

/// Whether every one of these profiles is supported.
pub fn supports_all(profiles: &Vec<String>, supported: &Vec<String>) -> (r: bool)
    ensures
        r == all_supported(profiles@, supported@),
{
    let mut index: usize = 0;
    while index < profiles.len()
        invariant
            index <= profiles@.len(),
            forall|i: int|
                0 <= i < index ==> has_profile(supported@, (#[trigger] profiles@[i])@),
        decreases profiles@.len() - index,
    {
        if !includes(supported, profiles[index].as_str()) {
            return false;
        }
        index = index + 1;
    }
    true
}

/// What a list of texts holds.
pub open spec fn names(profiles: Seq<String>) -> Seq<Seq<char>> {
    profiles.map_values(|profile: String| profile@)
}

/// Whether a set of profiles is in order, known, and has everything that its members need.
pub uninterp spec fn profile_set_valid(profiles: Seq<Seq<char>>) -> bool;

/// `vivid_protocol::registry::validate_profile_set`: whether a set is valid depends on the names and
/// their order.
#[verifier::external_body]
fn validate_profile_set(profiles: &Vec<String>) -> (r: bool)
    ensures
        r == profile_set_valid(names(profiles@)),
{
    vivid_protocol::registry::validate_profile_set(profiles.iter().map(String::as_str)).is_ok()
}

/// Why a session was not opened: a code that its producer is told, or none where it is told nothing,
/// and a diagnostic.
#[derive(Debug, Clone, Copy)]
pub struct SessionRefusal {
    pub code: Option<u64>,
    pub message: &'static str,
}

/// Whether a profile is accepted: it is required, or wished for and supported.
pub open spec fn accepts_profile(
    required: Seq<String>,
    optional: Seq<String>,
    supported: Seq<String>,
    name: Seq<char>,
) -> bool {
    has_profile(required, name) || (has_profile(optional, name) && has_profile(supported, name))
}

/// Whether a list is the accepted profiles, in order. There is exactly one such list.
pub open spec fn is_accepted(
    accepted: Seq<String>,
    required: Seq<String>,
    optional: Seq<String>,
    supported: Seq<String>,
) -> bool {
    &&& ascending(accepted)
    &&& forall|name: Seq<char>| #[trigger]
        has_profile(accepted, name) <==> accepts_profile(required, optional, supported, name)
}

/// The accepted profiles, in order.
fn accepted_profiles(required: &Vec<String>, optional: &Vec<String>, supported: &Vec<String>) -> (r:
    Vec<String>)
    ensures
        is_accepted(r@, required@, optional@, supported@),
{
    let mut accepted: Vec<String> = Vec::new();
    let mut index: usize = 0;
    while index < required.len()
        invariant
            index <= required@.len(),
            ascending(accepted@),
            forall|name: Seq<char>| #[trigger]
                has_profile(accepted@, name) <==> has_profile(required@.take(index as int), name),
        decreases required@.len() - index,
    {
        insert_ascending(&mut accepted, &required[index]);
        proof {
            assert(required@.take(index + 1) =~= required@.take(index as int).push(
                required@[index as int],
            ));
            lemma_push_profile(required@.take(index as int), required@[index as int]);
        }
        index = index + 1;
    }
    assert(required@.take(index as int) =~= required@);
    let mut index: usize = 0;
    while index < optional.len()
        invariant
            index <= optional@.len(),
            ascending(accepted@),
            forall|name: Seq<char>| #[trigger]
                has_profile(accepted@, name) <==> accepts_profile(
                    required@,
                    optional@.take(index as int),
                    supported@,
                    name,
                ),
        decreases optional@.len() - index,
    {
        if includes(supported, optional[index].as_str()) {
            insert_ascending(&mut accepted, &optional[index]);
        }
        proof {
            assert(optional@.take(index + 1) =~= optional@.take(index as int).push(
                optional@[index as int],
            ));
            lemma_push_profile(optional@.take(index as int), optional@[index as int]);
        }
        index = index + 1;
    }
    assert(optional@.take(index as int) =~= optional@);
    accepted
}

proof fn lemma_push_profile(profiles: Seq<String>, profile: String)
    ensures
        forall|name: Seq<char>| #[trigger]
            has_profile(profiles.push(profile), name) <==> has_profile(profiles, name) || name
                == profile@,
{
    let longer = profiles.push(profile);
    assert forall|name: Seq<char>| #[trigger] has_profile(longer, name) <==> has_profile(
        profiles,
        name,
    ) || name == profile@ by {
        if has_profile(profiles, name) {
            let i = choose|i: int| 0 <= i < profiles.len() && (#[trigger] profiles[i])@ == name;
            assert(longer[i]@ == name);
        }
        if name == profile@ {
            assert(longer[profiles.len() as int]@ == name);
        }
        if has_profile(longer, name) && name != profile@ {
            let i = choose|i: int| 0 <= i < longer.len() && (#[trigger] longer[i])@ == name;
            assert(profiles[i]@ == name);
        }
    }
}

/// Whether there is no agreement on the profiles of a session, and why.
pub open spec fn negotiation_refused(
    target_profile: Seq<char>,
    supported: Seq<String>,
    wanted_target: Seq<char>,
    required: Seq<String>,
    optional: Seq<String>,
    refusal: SessionRefusal,
) -> bool {
    if wanted_target != target_profile {
        refusal.code == Some(ERROR_UNSUPPORTED_PROFILE) && refusal.message@
            == "this window presents a different target profile"@
    } else if !all_supported(required, supported) {
        refusal.code == Some(ERROR_UNSUPPORTED_PROFILE) && refusal.message@
            == "a required profile is not implemented by this target"@
    } else {
        refusal.code is None && refusal.message@ == "the profile set is not valid"@
            && exists|accepted: Seq<String>| #[trigger]
            is_accepted(accepted, required, optional, supported) && !profile_set_valid(
                names(accepted),
            )
    }
}

/// Agree on the profiles of a session. A session that asks for another target, or requires what the
/// target does not have, is told so.
pub fn negotiate(
    target_profile: &str,
    supported: &Vec<String>,
    wanted_target: &str,
    required: &Vec<String>,
    optional: &Vec<String>,
) -> (r: Result<Vec<String>, SessionRefusal>)
    ensures
        match r {
            Ok(accepted) => wanted_target@ == target_profile@ && all_supported(required@, supported@)
                && is_accepted(accepted@, required@, optional@, supported@) && profile_set_valid(
                names(accepted@),
            ),
            Err(refusal) => negotiation_refused(
                target_profile@,
                supported@,
                wanted_target@,
                required@,
                optional@,
                refusal,
            ),
        },
{
    if !same_text(wanted_target, target_profile) {
        return Err(
            SessionRefusal {
                code: Some(ERROR_UNSUPPORTED_PROFILE),
                message: "this window presents a different target profile",
            },
        );
    }
    if !supports_all(required, supported) {
        return Err(
            SessionRefusal {
                code: Some(ERROR_UNSUPPORTED_PROFILE),
                message: "a required profile is not implemented by this target",
            },
        );
    }
    let accepted = accepted_profiles(required, optional, supported);
    if !validate_profile_set(&accepted) {
        return Err(SessionRefusal { code: None, message: "the profile set is not valid" });
    }
    Ok(accepted)
}

/// The accepted profiles are determined: two lists that are both the accepted profiles have the same
/// names in the same order.
pub proof fn the_accepted_profiles_are_determined(left: Seq<String>, right: Seq<String>)
    requires
        ascending(left),
        ascending(right),
        forall|name: Seq<char>| #[trigger] has_profile(left, name) <==> has_profile(right, name),
    ensures
        names(left) == names(right),
    decreases left.len(),
{
    if left.len() == 0 {
        if right.len() > 0 {
            assert(has_profile(right, right[0]@));
            assert(has_profile(left, right[0]@));
        }
        assert(names(left) =~= names(right));
    } else {
        assert(has_profile(left, left.last()@));
        assert(has_profile(right, left.last()@));
        let i = choose|i: int| 0 <= i < right.len() && (#[trigger] right[i])@ == left.last()@;
        assert(has_profile(right, right.last()@));
        assert(has_profile(left, right.last()@));
        let j = choose|j: int| 0 <= j < left.len() && (#[trigger] left[j])@ == right.last()@;
        let l = encode_utf8(left.last()@);
        let r = encode_utf8(right.last()@);
        lemma_before_irreflexive(l);
        if i < right.len() - 1 {
            assert(text_before(right[i]@, right[right.len() - 1]@));
            if j < left.len() - 1 {
                assert(text_before(left[j]@, left[left.len() - 1]@));
                lemma_before_transitive(l, r, l);
            }
        }
        assert(left.last()@ == right.last()@);
        let shorter_left = left.drop_last();
        let shorter_right = right.drop_last();
        assert forall|name: Seq<char>| #[trigger] has_profile(shorter_left, name) <==> has_profile(
            shorter_right,
            name,
        ) by {
            lemma_drop_last(left, right, name);
            lemma_drop_last(right, left, name);
        }
        assert forall|i: int, j: int| 0 <= i < j < shorter_left.len() implies text_before(
            #[trigger] shorter_left[i]@,
            #[trigger] shorter_left[j]@,
        ) by {
            assert(shorter_left[i] == left[i] && shorter_left[j] == left[j]);
        }
        assert forall|i: int, j: int| 0 <= i < j < shorter_right.len() implies text_before(
            #[trigger] shorter_right[i]@,
            #[trigger] shorter_right[j]@,
        ) by {
            assert(shorter_right[i] == right[i] && shorter_right[j] == right[j]);
        }
        the_accepted_profiles_are_determined(shorter_left, shorter_right);
        assert(names(left) =~= names(shorter_left).push(left.last()@));
        assert(names(right) =~= names(shorter_right).push(right.last()@));
    }
}

proof fn lemma_drop_last(left: Seq<String>, right: Seq<String>, name: Seq<char>)
    requires
        left.len() > 0,
        right.len() > 0,
        ascending(left),
        left.last()@ == right.last()@,
        forall|name: Seq<char>| #[trigger] has_profile(left, name) <==> has_profile(right, name),
    ensures
        has_profile(left.drop_last(), name) ==> has_profile(right.drop_last(), name),
{
    if has_profile(left.drop_last(), name) {
        let i = choose|i: int|
            0 <= i < left.drop_last().len() && (#[trigger] left.drop_last()[i])@ == name;
        assert(left[i]@ == name);
        assert(has_profile(left, name));
        let j = choose|j: int| 0 <= j < right.len() && (#[trigger] right[j])@ == name;
        assert(text_before(left[i]@, left[left.len() - 1]@));
        lemma_before_irreflexive(encode_utf8(name));
        assert(right.drop_last()[j]@ == name);
    }
}

/// A session gets every profile that it must have, and of those that it would like the ones that the
/// window knows. It gets nothing that it did not ask for, and nothing that the window does not know.
pub proof fn a_session_gets_what_it_needs_and_what_is_known(
    target_profile: &str,
    supported: &Vec<String>,
    wanted_target: &str,
    required: &Vec<String>,
    optional: &Vec<String>,
    r: Result<Vec<String>, SessionRefusal>,
    name: Seq<char>,
)
    requires
        call_ensures(negotiate, (target_profile, supported, wanted_target, required, optional), r),
    ensures
        r matches Ok(accepted) ==> {
            &&& has_profile(required@, name) ==> has_profile(accepted@, name)
            &&& has_profile(optional@, name) && has_profile(supported@, name) ==> has_profile(
                accepted@,
                name,
            )
            &&& has_profile(accepted@, name) ==> has_profile(supported@, name)
            &&& has_profile(accepted@, name) ==> has_profile(required@, name) || has_profile(
                optional@,
                name,
            )
            &&& wanted_target@ == target_profile@
        },
        wanted_target@ != target_profile@ ==> (r matches Err(refusal) && refusal.code == Some(3u64)),
        has_profile(required@, name) && !has_profile(supported@, name) ==> (r matches Err(refusal)
            && refusal.code == Some(3u64)),
{
    if has_profile(required@, name) {
        let i = choose|i: int| 0 <= i < required@.len() && (#[trigger] required@[i])@ == name;
        assert(required@[i]@ == name);
    }
}

/// All of some profiles are supported where each of them is, and none has to be where none is named.
pub proof fn profiles_are_supported_one_by_one(
    profiles: &Vec<String>,
    supported: &Vec<String>,
    r: bool,
    i: int,
)
    requires
        call_ensures(supports_all, (profiles, supported), r),
    ensures
        profiles@.len() == 0 ==> r,
        r && 0 <= i < profiles@.len() ==> has_profile(supported@, profiles@[i]@),
        !r ==> exists|j: int|
            0 <= j < profiles@.len() && !has_profile(supported@, (#[trigger] profiles@[j])@),
{
}

} // verus!

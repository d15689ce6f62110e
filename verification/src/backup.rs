//! The names of snapshots, their order, and which of them pruning keeps.

use vstd::prelude::*;
use vstd::string::StrSliceExecFns;
use vstd::string::StringExecFns;
use crate::store::texts;

verus! {

/// The form of the time in the name of a snapshot: year, month, day, `T`,
/// hour, minute, second and six digits of the fraction of the second.
pub open spec fn stamp_format() -> Seq<char> {
    "%Y%m%dT%H%M%S%6f"@
}

/// The text of a point in time in a given form: the time is given by the
/// seconds since the start of 1970 in UTC and the nanoseconds within the
/// second. `None` for a time outside the range of the calendar.
pub uninterp spec fn utc_text(secs: int, nanos: int, format: Seq<char>) -> Option<Seq<char>>;

/// What a name of a snapshot begins with, as the listing of a backup
/// directory recognises it.
pub open spec fn backup_prefix() -> Seq<char> {
    "racher"@
}

/// Tells whether a file name is that of a snapshot.
pub open spec fn is_backup_name(name: Seq<char>) -> bool {
    backup_prefix().is_prefix_of(name)
}

/// The name of the snapshot that is written at the time whose text is
/// `stamp`.
pub open spec fn backup_name(stamp: Seq<char>) -> Seq<char> {
    "racher-"@ + stamp + ".json"@
}

/// Whether one byte string comes before another, or equals it, in the
/// order of a dictionary.
pub open spec fn bytes_le(a: Seq<u8>, b: Seq<u8>) -> bool
    decreases a.len(),
{
    if a.len() == 0 {
        true
    } else if b.len() == 0 {
        false
    } else if a[0] != b[0] {
        a[0] < b[0]
    } else {
        bytes_le(a.skip(1), b.skip(1))
    }
}

/// The order of file names: that of their UTF-8 bytes.
pub open spec fn name_le(a: Seq<char>, b: Seq<char>) -> bool {
    bytes_le(vstd::utf8::encode_utf8(a), vstd::utf8::encode_utf8(b))
}

/// Tells whether a list of names ascends.
pub open spec fn ascending(names: Seq<Seq<char>>) -> bool {
    forall|i: int, j: int| 0 <= i < j < names.len() ==> name_le(names[i], names[j])
}

/// The bytes of two texts, one after the other, are the bytes of the
/// texts joined.
pub proof fn lemma_bytes_of_joined_texts(a: Seq<char>, b: Seq<char>)
    ensures
        vstd::utf8::encode_utf8(a + b) == vstd::utf8::encode_utf8(a) + vstd::utf8::encode_utf8(b),
    decreases a.len(),
{
    if a.len() == 0 {
        assert(a + b =~= b);
        assert(vstd::utf8::encode_utf8(a) + vstd::utf8::encode_utf8(b) =~= vstd::utf8::encode_utf8(
            b,
        ));
    } else {
        lemma_bytes_of_joined_texts(a.drop_first(), b);
        assert((a + b).drop_first() =~= a.drop_first() + b);
        assert(vstd::utf8::encode_utf8(a + b) =~= vstd::utf8::encode_utf8(a)
            + vstd::utf8::encode_utf8(b));
    }
}

/// A common beginning does not change the order of two byte strings.
pub proof fn lemma_bytes_le_after_prefix(prefix: Seq<u8>, a: Seq<u8>, b: Seq<u8>)
    ensures
        bytes_le(prefix + a, prefix + b) == bytes_le(a, b),
    decreases prefix.len(),
{
    if prefix.len() == 0 {
        assert(prefix + a =~= a);
        assert(prefix + b =~= b);
    } else {
        lemma_bytes_le_after_prefix(prefix.skip(1), a, b);
        assert((prefix + a).skip(1) =~= prefix.skip(1) + a);
        assert((prefix + b).skip(1) =~= prefix.skip(1) + b);
    }
}

/// A common end does not change the order of two byte strings of one
/// length.
pub proof fn lemma_bytes_le_before_suffix(a: Seq<u8>, b: Seq<u8>, suffix: Seq<u8>)
    requires
        a.len() == b.len(),
    ensures
        bytes_le(a + suffix, b + suffix) == bytes_le(a, b),
    decreases a.len(),
{
    if a.len() == 0 {
        assert(a + suffix =~= suffix);
        assert(b + suffix =~= suffix);
        lemma_bytes_le_reflexive(suffix);
    } else {
        lemma_bytes_le_before_suffix(a.skip(1), b.skip(1), suffix);
        assert((a + suffix).skip(1) =~= a.skip(1) + suffix);
        assert((b + suffix).skip(1) =~= b.skip(1) + suffix);
    }
}

/// Every byte string is at most itself.
pub proof fn lemma_bytes_le_reflexive(a: Seq<u8>)
    ensures
        bytes_le(a, a),
    decreases a.len(),
{
    if a.len() > 0 {
        lemma_bytes_le_reflexive(a.skip(1));
    }
}

/// Of two byte strings one is at most the other.
pub proof fn lemma_bytes_le_total(a: Seq<u8>, b: Seq<u8>)
    ensures
        bytes_le(a, b) || bytes_le(b, a),
    decreases a.len(),
{
    if a.len() > 0 && b.len() > 0 && a[0] == b[0] {
        lemma_bytes_le_total(a.skip(1), b.skip(1));
    }
}

/// Two byte strings that are at most each other are equal.
pub proof fn lemma_bytes_le_antisymmetric(a: Seq<u8>, b: Seq<u8>)
    requires
        bytes_le(a, b),
        bytes_le(b, a),
    ensures
        a == b,
    decreases a.len(),
{
    if a.len() > 0 && b.len() > 0 {
        lemma_bytes_le_antisymmetric(a.skip(1), b.skip(1));
        assert(a =~= seq![a[0]] + a.skip(1));
        assert(b =~= seq![b[0]] + b.skip(1));
    } else {
        assert(a =~= b);
    }
}

/// The order of byte strings is transitive.
pub proof fn lemma_bytes_le_transitive(a: Seq<u8>, b: Seq<u8>, c: Seq<u8>)
    requires
        bytes_le(a, b),
        bytes_le(b, c),
    ensures
        bytes_le(a, c),
    decreases a.len(),
{
    if a.len() > 0 && b.len() > 0 && c.len() > 0 && a[0] == b[0] && b[0] == c[0] {
        lemma_bytes_le_transitive(a.skip(1), b.skip(1), c.skip(1));
    }
}

/// Two snapshots whose times are written with the same number of bytes
/// are ordered by name as the texts of their times are ordered.
pub proof fn lemma_names_ordered_as_stamps(a: Seq<char>, b: Seq<char>)
    requires
        vstd::utf8::encode_utf8(a).len() == vstd::utf8::encode_utf8(b).len(),
    ensures
        name_le(backup_name(a), backup_name(b)) == name_le(a, b),
{
    let head = vstd::utf8::encode_utf8("racher-"@);
    let tail = vstd::utf8::encode_utf8(".json"@);
    let bytes_a = vstd::utf8::encode_utf8(a);
    let bytes_b = vstd::utf8::encode_utf8(b);
    lemma_bytes_of_joined_texts("racher-"@, a);
    lemma_bytes_of_joined_texts("racher-"@ + a, ".json"@);
    lemma_bytes_of_joined_texts("racher-"@, b);
    lemma_bytes_of_joined_texts("racher-"@ + b, ".json"@);
    assert(head + bytes_a + tail =~= head + (bytes_a + tail));
    assert(head + bytes_b + tail =~= head + (bytes_b + tail));
    lemma_bytes_le_after_prefix(head, bytes_a + tail, bytes_b + tail);
    lemma_bytes_le_before_suffix(bytes_a, bytes_b, tail);
}

/// Calls `chrono::DateTime::from_timestamp`, and on success
/// `DateTime::format` and `to_string` on what it gives.
///
/// Trusted: the text is a function of the time and the form alone. Only
/// the form of snapshot names is admitted; it is well-formed, so that the
/// formatting does not fail.
#[verifier::external_body]
pub(crate) fn format_utc(secs: i64, nanos: u32, format: &str) -> (text: Option<String>)
    requires
        format@ == stamp_format(),
    ensures
        crate::address::text_of(text) == utc_text(secs as int, nanos as int, format@),
{
    let time = chrono::DateTime::from_timestamp(secs, nanos)?;
    Some(time.format(format).to_string())
}

/// Calls `sort` on a vector of strings.
///
/// Trusted: afterwards the vector holds the same strings as before, in
/// ascending order; strings are ordered by their bytes.
#[verifier::external_body]
pub(crate) fn sort_names(names: &mut Vec<String>)
    ensures
        ascending(texts(final(names)@)),
        texts(final(names)@).to_multiset() == texts(old(names)@).to_multiset(),
{
    names.sort();
}

/// Names a snapshot by the text of its time.
pub fn snapshot_name(stamp: &str) -> (name: String)
    ensures
        name@ == backup_name(stamp@),
        is_backup_name(name@),
{
    let name = "racher-".to_owned().concat(stamp).concat(".json");
    proof {
        reveal_strlit("racher-");
        reveal_strlit("racher");
        assert(backup_prefix() =~= name@.subrange(0, 6));
    }
    name
}

/// Tells whether a file name is that of a snapshot.
pub fn recognise(name: &str) -> (yes: bool)
    ensures
        yes == is_backup_name(name@),
{
    let prefix = "racher";
    proof {
        reveal_strlit("racher");
    }
    if name.unicode_len() < 6 {
        return false;
    }
    let mut i: usize = 0;
    while i < 6
        invariant
            i <= 6,
            prefix@ == backup_prefix(),
            prefix@.len() == 6,
            name@.len() >= 6,
            forall|j: int| 0 <= j < i ==> name@[j] == prefix@[j],
        decreases 6 - i,
    {
        if name.get_char(i) != prefix.get_char(i) {
            assert(name@.subrange(0, 6)[i as int] != prefix@[i as int]);
            return false;
        }
        i += 1;
    }
    assert(prefix@ =~= name@.subrange(0, 6));
    true
}

/// The snapshots that stay when all but the newest `keep` are removed
/// from an ascending list: its last `keep` names, or all of them where
/// there are no more.
pub open spec fn retained(names: Seq<Seq<char>>, keep: nat) -> Seq<Seq<char>> {
    if keep >= names.len() {
        names
    } else {
        names.skip(names.len() - keep)
    }
}

/// The snapshots that are removed when all but the newest `keep` are: the
/// others, the newest of them first.
pub open spec fn pruned(names: Seq<Seq<char>>, keep: nat) -> Seq<Seq<char>> {
    if keep >= names.len() {
        Seq::empty()
    } else {
        names.take(names.len() - keep).reverse()
    }
}

/// Pruning leaves `keep` snapshots once there are that many, and all of
/// them before; what stays and what goes make up the list; and each
/// snapshot that stays is at least as new as each that goes.
pub proof fn lemma_retention(names: Seq<Seq<char>>, keep: nat)
    requires
        ascending(names),
    ensures
        names.len() >= keep ==> retained(names, keep).len() == keep,
        names.len() < keep ==> retained(names, keep) == names,
        pruned(names, keep).reverse() + retained(names, keep) == names,
        forall|i: int, j: int|
            0 <= i < pruned(names, keep).len() && 0 <= j < retained(names, keep).len()
                ==> name_le(#[trigger] pruned(names, keep)[i], #[trigger] retained(names, keep)[j]),
{
    if keep < names.len() {
        let cut = names.len() - keep;
        assert(names.take(cut).reverse().reverse() =~= names.take(cut));
        assert(names.take(cut) + names.skip(cut) =~= names);
        assert forall|i: int, j: int|
            0 <= i < pruned(names, keep).len() && 0 <= j < retained(names, keep).len()
                implies name_le(#[trigger] pruned(names, keep)[i], #[trigger] retained(names, keep)[j]) by {
            assert(pruned(names, keep)[i] == names[cut - 1 - i]);
            assert(retained(names, keep)[j] == names[cut + j]);
        }
    } else {
        assert(Seq::<Seq<char>>::empty().reverse() + names =~= names);
    }
}

/// Pruning after every new snapshot keeps what pruning once at the end
/// would: of the snapshots that stayed and a newer one, the newest `keep`
/// are the newest `keep` of all.
pub proof fn lemma_retention_cycle(names: Seq<Seq<char>>, newest: Seq<char>, keep: nat)
    ensures
        retained(retained(names, keep).push(newest), keep) == retained(names.push(newest), keep),
        names.len() + 1 >= keep ==> retained(names.push(newest), keep).len() == keep,
        keep >= 1 ==> retained(names.push(newest), keep).last() == newest,
{
    assert(retained(retained(names, keep).push(newest), keep) =~= retained(
        names.push(newest),
        keep,
    ));
}

/// The snapshots that are there after each of `written` has been written
/// in its turn and all but the newest `keep` have been removed after each.
pub open spec fn kept_after(written: Seq<Seq<char>>, keep: nat) -> Seq<Seq<char>>
    decreases written.len(),
{
    if written.len() == 0 {
        Seq::empty()
    } else {
        retained(kept_after(written.drop_last(), keep).push(written.last()), keep)
    }
}

/// After any number of turns of writing and pruning, the snapshots that
/// are there are the last `keep` that were written, or all of them where
/// fewer were written: once `keep` snapshots have been written, exactly
/// `keep` are there.
pub proof fn lemma_retention_over_cycles(written: Seq<Seq<char>>, keep: nat)
    ensures
        kept_after(written, keep) == retained(written, keep),
        written.len() >= keep ==> kept_after(written, keep).len() == keep,
        written.len() < keep ==> kept_after(written, keep) == written,
    decreases written.len(),
{
    if written.len() > 0 {
        lemma_retention_over_cycles(written.drop_last(), keep);
        lemma_retention_cycle(written.drop_last(), written.last(), keep);
        assert(written.drop_last().push(written.last()) =~= written);
    } else {
        assert(retained(written, keep) =~= Seq::<Seq<char>>::empty());
    }
}

/// The snapshot that is loaded is at least as new as every snapshot found.
pub proof fn lemma_newest_is_loaded(names: Seq<Seq<char>>, i: int)
    requires
        ascending(names),
        0 <= i < names.len(),
    ensures
        name_le(names[i], names.last()),
{
    lemma_bytes_le_reflexive(vstd::utf8::encode_utf8(names.last()));
}

} // verus!

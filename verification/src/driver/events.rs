//! What the toolchain answers.
//!
//! The answer is a run of JSON objects, one for each event of the build, with
//! anything or nothing between them. An object that reports an executable
//! names its path under the key `executable`.

use vstd::prelude::*;
use vstd::slice::*;

use crate::driver::BuildError;
use crate::text::texts_view;

verus! {

/// The byte `{`.
pub const OPEN: u8 = 0x7b;

/// The byte `}`.
pub const CLOSE: u8 = 0x7d;

/// The records in `bytes` from `at` on, in a scan that is `depth` braces deep
/// in a record that began at `start`.
///
/// A record begins at a `{` outside any record and ends at the `}` that
/// matches it, both included. What stands between records is passed over. A
/// record that the end of the bytes cuts short is a record too.
pub open spec fn records_from(bytes: Seq<u8>, at: int, depth: nat, start: int) -> Seq<Seq<u8>>
    decreases bytes.len() - at,
{
    if at < 0 || at >= bytes.len() {
        if depth > 0 {
            seq![bytes.subrange(start, bytes.len() as int)]
        } else {
            Seq::empty()
        }
    } else if bytes[at] == OPEN {
        records_from(
            bytes,
            at + 1,
            depth + 1,
            if depth == 0 {
                at
            } else {
                start
            },
        )
    } else if bytes[at] == CLOSE && depth == 1 {
        seq![bytes.subrange(start, at + 1)] + records_from(bytes, at + 1, 0, at + 1)
    } else if bytes[at] == CLOSE && depth > 1 {
        records_from(bytes, at + 1, (depth - 1) as nat, start)
    } else {
        records_from(bytes, at + 1, depth, start)
    }
}

/// The records in the answer of the toolchain.
pub open spec fn records(bytes: Seq<u8>) -> Seq<Seq<u8>> {
    records_from(bytes, 0, 0, 0)
}

/// What a sequence of records stands for.
pub open spec fn records_view(records: Seq<Vec<u8>>) -> Seq<Seq<u8>> {
    records.map_values(|record: Vec<u8>| record@)
}

/// Cuts the answer of the toolchain into its records.
pub fn split_records(output: &[u8]) -> (found: Vec<Vec<u8>>)
    ensures
        records_view(found@) == records(output@),
{
    let mut found: Vec<Vec<u8>> = Vec::new();
    let mut at: usize = 0;
    let mut depth: usize = 0;
    let mut start: usize = 0;
    assert(records_view(found@) + records(output@) == records(output@));
    while at < output.len()
        invariant
            at <= output.len(),
            depth <= at,
            start <= at,
            records(output@) == records_view(found@) + records_from(
                output@,
                at as int,
                depth as nat,
                start as int,
            ),
        decreases output.len() - at,
    {
        let byte = output[at];
        if byte == OPEN {
            if depth == 0 {
                start = at;
            }
            depth = depth + 1;
        } else if byte == CLOSE && depth == 1 {
            let record = slice_to_vec(slice_subrange(output, start, at + 1));
            assert(records_view(found@.push(record)) + records_from(output@, at + 1, 0, at + 1)
                == records_view(found@) + (seq![record@] + records_from(
                output@,
                at + 1,
                0,
                at + 1,
            )));
            found.push(record);
            depth = 0;
            start = at + 1;
        } else if byte == CLOSE && depth > 1 {
            depth = depth - 1;
        }
        at = at + 1;
    }
    if depth > 0 {
        let record = slice_to_vec(slice_subrange(output, start, output.len()));
        assert(records_view(found@.push(record)) == records_view(found@) + seq![record@]);
        found.push(record);
    } else {
        assert(records_view(found@) + Seq::<Seq<u8>>::empty() == records_view(found@));
    }
    found
}

/// What a record holds under a key.
#[derive(Debug, PartialEq, Eq)]
pub enum Member {
    /// The record cannot be read: it is not JSON, or it holds more digits in a
    /// row than a number is read with.
    Malformed,
    /// The record is JSON, but not an object.
    NotObject,
    /// The record is an object that has nothing under the key.
    Absent,
    /// The record is an object that has something under the key that is not a
    /// string.
    NotText,
    /// The record is an object that has this string under the key.
    Text(String),
}

/// What a [`Member`] stands for.
pub ghost enum MemberView {
    Malformed,
    NotObject,
    Absent,
    NotText,
    Text(Seq<char>),
}

impl View for Member {
    type V = MemberView;

    open spec fn view(&self) -> MemberView {
        match self {
            Member::Malformed => MemberView::Malformed,
            Member::NotObject => MemberView::NotObject,
            Member::Absent => MemberView::Absent,
            Member::NotText => MemberView::NotText,
            Member::Text(text) => MemberView::Text(text@),
        }
    }
}

/// What a sequence of members stands for.
pub open spec fn members_view(members: Seq<Member>) -> Seq<MemberView> {
    members.map_values(|member: Member| member@)
}

/// The most digits in a row with which a number is read.
pub const MOST_DIGITS: usize = 32767;

/// Whether `byte` is a digit.
pub open spec fn is_digit_byte(byte: u8) -> bool {
    0x30 <= byte <= 0x39
}

/// How many digits stand in a row just before `end`.
pub open spec fn digit_run(bytes: Seq<u8>, end: int) -> nat
    decreases end,
{
    if end <= 0 || end > bytes.len() || !is_digit_byte(bytes[end - 1]) {
        0
    } else {
        digit_run(bytes, end - 1) + 1
    }
}

/// Whether the numbers of a record can be read: nowhere in the record stand
/// more than [`MOST_DIGITS`] digits in a row.
pub open spec fn readable(bytes: Seq<u8>) -> bool {
    forall|end: int| 0 <= end <= bytes.len() ==> #[trigger] digit_run(bytes, end) <= MOST_DIGITS
}

/// Whether the numbers of a record can be read.
pub fn is_readable(record: &[u8]) -> (yes: bool)
    ensures
        yes == readable(record@),
{
    let mut at: usize = 0;
    let mut run: usize = 0;
    while at < record.len()
        invariant
            at <= record.len(),
            run == digit_run(record@, at as int),
            forall|end: int| 0 <= end <= at ==> #[trigger] digit_run(record@, end) <= MOST_DIGITS,
        decreases record.len() - at,
    {
        let byte = record[at];
        if 0x30 <= byte && byte <= 0x39 {
            if run == MOST_DIGITS {
                assert(digit_run(record@, at + 1) > MOST_DIGITS);
                return false;
            }
            run = run + 1;
        } else {
            run = 0;
        }
        at = at + 1;
    }
    true
}

/// What the `json` crate finds under `key` in the record that is `record` in
/// UTF-8.
pub uninterp spec fn json_member(record: Seq<u8>, key: Seq<char>) -> MemberView;

/// What a record holds under `key`: what the `json` crate finds there, where
/// the numbers of the record can be read.
pub open spec fn member_of(record: Seq<u8>, key: Seq<char>) -> MemberView {
    if readable(record) {
        json_member(record, key)
    } else {
        MemberView::Malformed
    }
}

/// Reads `record` with `json::parse` and looks `key` up with `Object::get` and
/// `JsonValue::as_str`.
///
/// A record that is not UTF-8, or that `json::parse` refuses, is
/// [`Member::Malformed`]; a value that is no `JsonValue::Object` is
/// [`Member::NotObject`]; a key for which `Object::get` has nothing is
/// [`Member::Absent`], and a value for which `JsonValue::as_str` has nothing is
/// [`Member::NotText`]. The calls look at the record and the key alone, so the
/// result is [`json_member`] of the two. What JSON is, is the crate's to say.
///
/// `json::parse` counts the digits of a fraction in 16 bits, so a record with
/// more than [`MOST_DIGITS`] digits in a row is not handed over.
#[verifier::external_body]
fn string_member(record: &[u8], key: &str) -> (member: Member)
    requires
        readable(record@),
    ensures
        member@ == json_member(record@, key@),
{
    let Ok(text) = std::str::from_utf8(record) else {
        return Member::Malformed;
    };
    match json::parse(text) {
        Err(_) => Member::Malformed,
        Ok(json::JsonValue::Object(object)) => match object.get(key) {
            Some(value) => match value.as_str() {
                Some(text) => Member::Text(text.to_string()),
                None => Member::NotText,
            },
            None => Member::Absent,
        },
        Ok(_) => Member::NotObject,
    }
}

/// What a record holds under `key`. A record whose numbers cannot be read is
/// not read at all.
pub fn member(record: &[u8], key: &str) -> (member: Member)
    ensures
        member@ == member_of(record@, key@),
{
    if is_readable(record) {
        string_member(record, key)
    } else {
        Member::Malformed
    }
}

/// The strings among `members`, in their order. A record that names no
/// executable, or names something that is not a string, adds nothing.
pub open spec fn texts_of(members: Seq<MemberView>) -> Seq<Seq<char>>
    decreases members.len(),
{
    if members.len() == 0 {
        Seq::empty()
    } else {
        match members.last() {
            MemberView::Text(text) => texts_of(members.drop_last()).push(text),
            _ => texts_of(members.drop_last()),
        }
    }
}

/// Whether one of `members` is a record that is not JSON.
pub open spec fn any_malformed(members: Seq<MemberView>) -> bool {
    exists|i: int| 0 <= i < members.len() && #[trigger] members[i] is Malformed
}

/// Whether one of `members` is a record that is not an object.
pub open spec fn any_not_object(members: Seq<MemberView>) -> bool {
    exists|i: int| 0 <= i < members.len() && #[trigger] members[i] is NotObject
}

/// The executables that the records name, where `members` is what each record
/// holds under the key `executable`. One record that is not JSON spoils the
/// answer; if all are JSON, one that is not an object does.
pub open spec fn executables_of(members: Seq<MemberView>) -> Result<Seq<Seq<char>>, BuildError> {
    if any_malformed(members) {
        Err(BuildError::InvalidJson)
    } else if any_not_object(members) {
        Err(BuildError::NotAnObject)
    } else {
        Ok(texts_of(members))
    }
}

/// What the outcome of [`executables`] stands for.
pub open spec fn executables_view(result: Result<Vec<String>, BuildError>) -> Result<
    Seq<Seq<char>>,
    BuildError,
> {
    match result {
        Ok(paths) => Ok(texts_view(paths@)),
        Err(error) => Err(error),
    }
}

/// Collects the executables that the records name, where `members` is what
/// each record holds under the key `executable`.
pub fn collect_executables(members: &Vec<Member>) -> (result: Result<Vec<String>, BuildError>)
    ensures
        executables_view(result) == executables_of(members_view(members@)),
{
    let ghost view = members_view(members@);
    let mut i: usize = 0;
    while i < members.len()
        invariant
            i <= members.len(),
            view == members_view(members@),
            forall|j: int| 0 <= j < i ==> !(#[trigger] view[j] is Malformed),
        decreases members.len() - i,
    {
        if let Member::Malformed = &members[i] {
            assert(view[i as int] is Malformed);
            return Err(BuildError::InvalidJson);
        }
        i = i + 1;
    }
    let mut paths: Vec<String> = Vec::new();
    let mut i: usize = 0;
    assert(view.take(0) =~= Seq::<MemberView>::empty());
    while i < members.len()
        invariant
            i <= members.len(),
            view == members_view(members@),
            !any_malformed(view),
            forall|j: int| 0 <= j < i ==> !(#[trigger] view[j] is NotObject),
            texts_view(paths@) == texts_of(view.take(i as int)),
        decreases members.len() - i,
    {
        proof {
            assert(view.take(i + 1).drop_last() =~= view.take(i as int));
            assert(view.take(i + 1).last() == view[i as int]);
        }
        match &members[i] {
            Member::NotObject => {
                assert(view[i as int] is NotObject);
                return Err(BuildError::NotAnObject);
            },
            Member::Text(text) => {
                assert(texts_view(paths@.push(*text)) == texts_view(paths@).push(text@));
                paths.push(text.clone());
            },
            _ => {},
        }
        i = i + 1;
    }
    assert(view.take(members.len() as int) =~= view);
    Ok(paths)
}

/// The executables that the answer of the toolchain names: what the records
/// of the answer hold under the key `executable`, in their order.
pub fn executables(output: &[u8]) -> (result: Result<Vec<String>, BuildError>)
    ensures
        executables_view(result) == executables_of(
            records(output@).map_values(|record: Seq<u8>| member_of(record, "executable"@)),
        ),
{
    let found = split_records(output);
    let mut members: Vec<Member> = Vec::new();
    let mut i: usize = 0;
    while i < found.len()
        invariant
            i <= found.len(),
            members@.len() == i,
            forall|j: int|
                0 <= j < i ==> (#[trigger] members@[j])@ == member_of(found@[j]@, "executable"@),
        decreases found.len() - i,
    {
        members.push(member(found[i].as_slice(), "executable"));
        i = i + 1;
    }
    assert(members_view(members@) =~= records_view(found@).map_values(
        |record: Seq<u8>| member_of(record, "executable"@),
    ));
    collect_executables(&members)
}

} // verus!

//! Turning what Git reports about a commit into a commit record.
use vstd::prelude::*;

use super::{LastCommit, NewCommit};
use crate::text::{push_signed_decimal, signed_decimal};

use crate::text::is_prefix;

verus! {

/// The commit record for what Git reports: the subject falls back to
/// `No subject`, the parent count is taken as an `i32` and the commit time is
/// written as decimal seconds since the epoch.
pub fn new_commit(
    hash: &str,
    author_name: Option<String>,
    author_email: Option<String>,
    committer_name: Option<String>,
    committer_email: Option<String>,
    summary: Option<String>,
    message: Option<String>,
    parent_count: usize,
    seconds: i64,
) -> (c: NewCommit)
    ensures
        c.hash@ == hash@,
        c.author_name == author_name,
        c.author_email == author_email,
        c.committer_name == committer_name,
        c.committer_email == committer_email,
        c.subject@ == (match summary {
            Some(s) => s@,
            None => "No subject"@,
        }),
        c.body == message,
        c.parent_count == parent_count as i32,
        c.committed_at@ == signed_decimal(seconds as int),
{
    let subject = match summary {
        Some(s) => s,
        None => "No subject".to_owned(),
    };
    let mut committed_at = String::new();
    push_signed_decimal(&mut committed_at, seconds);
    NewCommit {
        hash: hash.to_owned(),
        author_name,
        author_email,
        committer_name,
        committer_email,
        subject,
        body: message,
        parent_count: parent_count as i32,
        committed_at,
    }
}

/// The last-commit record of a branch: the commit's hash and time.
pub fn last_commit_of(c: NewCommit) -> (l: LastCommit)
    ensures
        l.hash == c.hash,
        l.committed_at == c.committed_at,
{
    LastCommit { hash: c.hash, committed_at: c.committed_at }
}

/// Whether Git reads a text as an object id: one to forty hexadecimal
/// digits (a shorter text is an abbreviated id).
pub open spec fn is_object_id_text(s: Seq<char>) -> bool {
    &&& 0 < s.len() <= 40
    &&& forall|i: int|
        0 <= i < s.len() ==> ('0' <= #[trigger] s[i] <= '9' || 'a' <= s[i] <= 'f' || 'A' <= s[i]
            <= 'F')
}

/// The value of a hexadecimal digit (0 for any other character).
pub open spec fn hex_digit_value(c: char) -> int {
    if '0' <= c <= '9' {
        c as int - '0' as int
    } else if 'a' <= c <= 'f' {
        c as int - 'a' as int + 10
    } else if 'A' <= c <= 'F' {
        c as int - 'A' as int + 10
    } else {
        0
    }
}

/// The value of the digit at position `p` of `s`, 0 past its end.
pub open spec fn hex_digit_at(s: Seq<char>, p: int) -> int {
    if 0 <= p < s.len() {
        hex_digit_value(s[p])
    } else {
        0
    }
}

/// The twenty bytes of the object id that a text of hexadecimal digits
/// names: each pair of digits is one byte, the first digit the high half;
/// a shorter text is filled up with zero digits.
pub open spec fn hex_id_bytes(s: Seq<char>) -> Seq<u8> {
    Seq::new(20, |k: int| (16 * hex_digit_at(s, 2 * k) + hex_digit_at(s, 2 * k + 1)) as u8)
}

/// `git2::Oid::from_str`, giving the id's bytes (`Oid::as_bytes`) and Git's
/// error as its text. Its source (libgit2's `git_oid__fromstrn`) fails when
/// the text has no bytes, more than forty, or one that is not a hexadecimal
/// digit; otherwise it fills twenty zero bytes and puts each digit's value
/// into the high, then the low half of byte `p / 2`. The wording of the
/// error is left unsaid.
#[verifier::external_body]
fn oid_bytes_from_str(s: &str) -> (r: Result<Vec<u8>, String>)
    ensures
        r is Ok <==> is_object_id_text(s@),
        r matches Ok(b) ==> b@ == hex_id_bytes(s@),
{
    match git2::Oid::from_str(s) {
        Ok(oid) => Ok(oid.as_bytes().to_vec()),
        Err(e) => Err(e.to_string()),
    }
}

/// The message for a text that is not a commit id: it names the text, then
/// gives Git's reason.
pub open spec fn invalid_hash_message(hash: Seq<char>, m: Seq<char>) -> bool {
    is_prefix("Invalid commit hash '"@ + hash + "': "@, m)
}

/// Reads a commit hash as the bytes of a Git object id; a text that is not
/// one gives an error naming it.
pub fn parse_commit_hash(commit_hash: &str) -> (r: Result<Vec<u8>, String>)
    ensures
        is_object_id_text(commit_hash@) ==> (r matches Ok(b) && b@ == hex_id_bytes(commit_hash@)),
        !is_object_id_text(commit_hash@) ==> (r matches Err(m) && invalid_hash_message(
            commit_hash@,
            m@,
        )),
{
    match oid_bytes_from_str(commit_hash) {
        Ok(id) => Ok(id),
        Err(reason) => {
            let mut m = "Invalid commit hash '".to_owned();
            m.append(commit_hash);
            m.append("': ");
            let ghost head = m@;
            m.append(reason.as_str());
            assert(m@.subrange(0, head.len() as int) =~= head);
            Err(m)
        },
    }
}

} // verus!

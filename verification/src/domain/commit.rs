//! Commit entity: kind by parent count, significance, short forms for display.
use vstd::prelude::*;

use super::{DomainError, DomainResult};
use crate::text::{byte_len, decimal, first_chars, is_prefix, push_decimal, str_byte_len, take_chars};

verus! {

/// Identifier of a stored commit.
#[derive(Debug, Clone, Copy, PartialEq, Eq, Hash, Structural)]
pub struct CommitId(pub i64);

/// The Git object name of a commit.
#[derive(Debug, Clone, PartialEq, Eq, Hash)]
pub struct CommitHash(pub String);

/// Kind of commit by its number of parents.
#[derive(Debug, Clone, Copy, PartialEq, Eq, Structural)]
pub enum CommitType {
    Root,
    Regular,
    Merge,
}

/// A commit with its authorship, message and significance.
#[derive(Debug, Clone)]
pub struct Commit {
    pub id: CommitId,
    pub hash: CommitHash,
    pub author_name: String,
    pub author_email: String,
    pub committer_name: String,
    pub committer_email: String,
    pub subject: String,
    pub body: Option<String>,
    pub parent_count: u32,
    pub committed_at: String,
    pub is_significant: bool,
}

/// Condensed commit information for display.
#[derive(Debug, Clone)]
pub struct CommitInfo {
    pub hash: String,
    pub author: String,
    pub subject: String,
    pub commit_type: CommitType,
    pub is_significant: bool,
    pub timestamp: String,
}

/// A commit as a node of the history graph, with its branches and change totals.
#[derive(Debug, Clone)]
pub struct CommitGraphNode {
    pub hash: String,
    pub branches: Vec<String>,
    pub author_name: String,
    pub author_email: String,
    pub subject: String,
    pub committed_at: String,
    pub total_additions: i32,
    pub total_deletions: i32,
    pub total_files_changed: i32,
    pub parents: Vec<String>,
}

/// The kind of a commit with `parent_count` parents.
pub open spec fn type_for_parents(parent_count: u32) -> CommitType {
    if parent_count == 0 {
        CommitType::Root
    } else if parent_count == 1 {
        CommitType::Regular
    } else {
        CommitType::Merge
    }
}

/// The display name of a commit kind.
pub open spec fn commit_type_text(t: CommitType) -> Seq<char> {
    match t {
        CommitType::Root => "Root"@,
        CommitType::Regular => "Regular"@,
        CommitType::Merge => "Merge"@,
    }
}

/// The display form of a subject: its first 50 characters, followed by `...`
/// when the subject is longer than 50 bytes.
pub open spec fn short_subject(subject: Seq<char>) -> Seq<char> {
    take_chars(subject, 50) + (if byte_len(subject) > 50 {
        "..."@
    } else {
        Seq::empty()
    })
}

/// The short form of a hash: its first seven characters.
pub open spec fn short_hash(hash: Seq<char>) -> Seq<char> {
    take_chars(hash, 7)
}

/// A commit has a body and a subject longer than ten bytes.
pub open spec fn well_documented(c: Commit) -> bool {
    c.body is Some && byte_len(c.subject@) > 10
}

/// The byte length of an optional body, zero when absent.
pub open spec fn body_bytes(body: Option<String>) -> nat {
    match body {
        Some(b) => byte_len(b@),
        None => 0,
    }
}

/// Every commit is of exactly one kind: a root commit has no parent, a
/// regular commit one, a merge commit two or more.
pub proof fn law_commit_kinds(parent_count: u32)
    ensures
        (type_for_parents(parent_count) == CommitType::Root) <==> parent_count == 0,
        (type_for_parents(parent_count) == CommitType::Regular) <==> parent_count == 1,
        (type_for_parents(parent_count) == CommitType::Merge) <==> parent_count >= 2,
{
}

/// The display form of a subject is at most 53 characters long (50 and an
/// ellipsis) and begins with the subject's first characters.
pub proof fn law_short_subject_bounded(subject: Seq<char>)
    ensures
        short_subject(subject).len() <= 53,
        is_prefix(take_chars(subject, 50), short_subject(subject)),
        is_prefix(take_chars(subject, 50), subject),
{
    reveal_strlit("...");
    let t = take_chars(subject, 50);
    let short = short_subject(subject);
    assert(short.subrange(0, t.len() as int) =~= t);
    assert(subject.subrange(0, t.len() as int) =~= t);
}

/// Setting a body decides whether a commit is well documented: a non-empty
/// body makes it so exactly when its subject is longer than ten bytes, an
/// empty body never does.
pub proof fn law_body_documents_commit(c: Commit, body: String)
    ensures
        well_documented(
            Commit {
                body: if body@.len() == 0 {
                    None
                } else {
                    Some(body)
                },
                ..c
            },
        ) == (body@.len() > 0 && byte_len(c.subject@) > 10),
{
}

/// A short hash is at most seven characters long and begins the full hash.
pub proof fn law_short_hash_prefix(hash: Seq<char>)
    ensures
        short_hash(hash).len() <= 7,
        is_prefix(short_hash(hash), hash),
        hash.len() <= 7 ==> short_hash(hash) == hash,
{
    let t = short_hash(hash);
    assert(hash.subrange(0, t.len() as int) =~= t);
}

impl CommitType {
    /// The display name of the kind.
    pub fn to_string(&self) -> (s: String)
        ensures
            s@ == commit_type_text(*self),
    {
        match self {
            CommitType::Root => "Root".to_owned(),
            CommitType::Regular => "Regular".to_owned(),
            CommitType::Merge => "Merge".to_owned(),
        }
    }
}

impl CommitHash {
    /// The first seven characters of the hash.
    pub fn short(&self) -> (s: String)
        ensures
            s@ == short_hash(self.0@),
    {
        first_chars(self.0.as_str(), 7)
    }

    /// The whole hash.
    pub fn full(&self) -> (s: &str)
        ensures
            s@ == self.0@,
    {
        self.0.as_str()
    }
}

impl Commit {
    /// Creates a commit without body and not significant; hash and subject
    /// must not be empty, and the hash is checked first.
    pub fn new(
        id: i64,
        hash: String,
        author_name: String,
        author_email: String,
        committer_name: String,
        committer_email: String,
        subject: String,
        parent_count: u32,
        committed_at: String,
    ) -> (r: DomainResult<Commit>)
        ensures
            hash@.len() == 0 ==> (r matches Err(DomainError::InvalidCommit(m)) && m@
                == "Commit hash cannot be empty"@),
            hash@.len() > 0 && subject@.len() == 0 ==> (r matches Err(
                DomainError::InvalidCommit(m),
            ) && m@ == "Commit subject cannot be empty"@),
            hash@.len() > 0 && subject@.len() > 0 ==> (r matches Ok(c) && c == (Commit {
                id: CommitId(id),
                hash: CommitHash(hash),
                author_name,
                author_email,
                committer_name,
                committer_email,
                subject,
                body: None,
                parent_count,
                committed_at,
                is_significant: false,
            })),
    {
        if hash.as_str().is_empty() {
            return Err(DomainError::InvalidCommit("Commit hash cannot be empty".to_owned()));
        }
        if subject.as_str().is_empty() {
            return Err(DomainError::InvalidCommit("Commit subject cannot be empty".to_owned()));
        }
        Ok(Commit {
            id: CommitId(id),
            hash: CommitHash(hash),
            author_name,
            author_email,
            committer_name,
            committer_email,
            subject,
            body: None,
            parent_count,
            committed_at,
            is_significant: false,
        })
    }

    /// A merge commit has two or more parents.
    pub fn is_merge_commit(&self) -> (b: bool)
        ensures
            b == (self.parent_count >= 2),
    {
        self.parent_count >= 2
    }

    /// A root commit has no parent.
    pub fn is_root_commit(&self) -> (b: bool)
        ensures
            b == (self.parent_count == 0),
    {
        self.parent_count == 0
    }

    /// A regular commit has exactly one parent.
    pub fn is_regular_commit(&self) -> (b: bool)
        ensures
            b == (self.parent_count == 1),
    {
        self.parent_count == 1
    }

    /// The kind of the commit.
    pub fn commit_type(&self) -> (t: CommitType)
        ensures
            t == type_for_parents(self.parent_count),
    {
        match self.parent_count {
            0 => CommitType::Root,
            1 => CommitType::Regular,
            _ => CommitType::Merge,
        }
    }

    /// The byte length of subject and body together.
    pub fn message_size(&self) -> (n: usize)
        requires
            byte_len(self.subject@) + body_bytes(self.body) <= usize::MAX,
        ensures
            n == byte_len(self.subject@) + body_bytes(self.body),
    {
        let subject_len = str_byte_len(self.subject.as_str());
        let body_len = match &self.body {
            Some(b) => str_byte_len(b.as_str()),
            None => 0,
        };
        subject_len + body_len
    }

    /// Whether the commit has a body and a subject of more than ten bytes.
    pub fn is_well_documented(&self) -> (b: bool)
        ensures
            b == well_documented(*self),
    {
        self.body.is_some() && str_byte_len(self.subject.as_str()) > 10
    }

    /// Marks the commit significant when it merges or is well documented.
    pub fn determine_significance(&mut self)
        ensures
            *final(self) == (Commit {
                is_significant: old(self).parent_count >= 2 || well_documented(*old(self)),
                ..*old(self)
            }),
    {
        self.is_significant = self.is_merge_commit() || self.is_well_documented();
    }

    /// The subject shortened for display.
    pub fn short_message(&self) -> (s: String)
        ensures
            s@ == short_subject(self.subject@),
    {
        let mut short = first_chars(self.subject.as_str(), 50);
        if str_byte_len(self.subject.as_str()) > 50 {
            short.append("...");
        } else {
            assert(short@ + Seq::<char>::empty() =~= short@);
        }
        short
    }

    /// Condensed display information about the commit.
    pub fn get_commit_info(&self) -> (info: CommitInfo)
        ensures
            info.hash@ == short_hash(self.hash.0@),
            info.author@ == self.author_name@,
            info.subject@ == short_subject(self.subject@),
            info.commit_type == type_for_parents(self.parent_count),
            info.is_significant == self.is_significant,
            info.timestamp@ == self.committed_at@,
    {
        CommitInfo {
            hash: self.hash.short(),
            author: self.author_name.clone(),
            subject: self.short_message(),
            commit_type: self.commit_type(),
            is_significant: self.is_significant,
            timestamp: self.committed_at.clone(),
        }
    }

    /// Checks that the hash is a full (40) or abbreviated (7) hash by byte
    /// length, then that the author is named.
    pub fn validate(&self) -> (r: DomainResult<()>)
        ensures
            byte_len(self.hash.0@) != 40 && byte_len(self.hash.0@) != 7 ==> (r matches Err(
                DomainError::InvalidCommit(m),
            ) && m@ == "Invalid commit hash length: "@ + decimal(byte_len(self.hash.0@))),
            (byte_len(self.hash.0@) == 40 || byte_len(self.hash.0@) == 7) && self.author_name@.len()
                == 0 ==> (r matches Err(DomainError::InvalidCommit(m)) && m@
                == "Author name cannot be empty"@),
            (byte_len(self.hash.0@) == 40 || byte_len(self.hash.0@) == 7) && self.author_name@.len()
                > 0 ==> r is Ok,
    {
        let len = str_byte_len(self.hash.0.as_str());
        if len != 40 && len != 7 {
            let mut m = "Invalid commit hash length: ".to_owned();
            push_decimal(&mut m, len as u64);
            return Err(DomainError::InvalidCommit(m));
        }
        if self.author_name.as_str().is_empty() {
            return Err(DomainError::InvalidCommit("Author name cannot be empty".to_owned()));
        }
        Ok(())
    }

    /// Sets the body; an empty body is stored as absent.
    pub fn set_body(&mut self, body: String)
        ensures
            *final(self) == (Commit {
                body: if body@.len() == 0 {
                    None
                } else {
                    Some(body)
                },
                ..*old(self)
            }),
    {
        self.body = if body.as_str().is_empty() {
            None
        } else {
            Some(body)
        };
    }
}

} // verus!

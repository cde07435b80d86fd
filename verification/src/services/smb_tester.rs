//! What a Samba upload test writes where, and with which credentials.
//!
//! The application connects to the share, uploads `TEST_FILE_BYTES` in
//! chunks of `CHUNK_BYTES` to the file named here and times it.

use vstd::prelude::*;
use smb::UncPath;
use crate::text::{decimal_string, decimal_text};

verus! {

#[verifier::external_type_specification]
#[verifier::external_body]
pub struct ExUncPath(smb::UncPath);

#[verifier::external_type_specification]
#[verifier::external_body]
pub struct ExSmbError(smb::Error);

/// A Samba upload test against one share.
#[derive(Debug, Clone)]
pub struct SmbTester {
    pub server: String,
    pub share: String,
    pub username: Option<String>,
    pub password: Option<String>,
}

/// Size of the uploaded test file: 10 MiB.
pub const TEST_FILE_BYTES: u64 = 10 * 1024 * 1024;

/// Size of each write: 1 MiB.
pub const CHUNK_BYTES: usize = 1024 * 1024;

/// What `smb::UncPath::from_str` returns for a text it accepts.
pub uninterp spec fn unc_path_of(text: Seq<char>) -> UncPath;

/// Whether a text starts with two backslashes or two slashes.
pub open spec fn has_unc_prefix(s: Seq<char>) -> bool {
    s.len() >= 2 && ((s[0] == '\\' && s[1] == '\\') || (s[0] == '/' && s[1] == '/'))
}

/// `<smb::UncPath as FromStr>::from_str`. In smb 0.12.1 it fails exactly
/// when the text does not start with two slashes or two backslashes (it
/// then splits the rest into server, share and path, which always
/// succeeds); what it builds is a function of the text, named
/// `unc_path_of`.
#[verifier::external_body]
fn parse_unc_path(text: &str) -> (r: Result<UncPath, smb::Error>)
    ensures
        r is Ok <==> has_unc_prefix(text@),
        r matches Ok(p) ==> p == unc_path_of(text@),
{
    <UncPath as std::str::FromStr>::from_str(text)
}

/// `\\server\share`.
pub open spec fn share_unc_text(server: Seq<char>, share: Seq<char>) -> Seq<char> {
    seq!['\\', '\\'] + server + seq!['\\'] + share
}

/// `\\server\share\wifichecker_<millis>.dat`: a file name unique to the
/// millisecond at which the test runs.
pub open spec fn test_file_unc_text(server: Seq<char>, share: Seq<char>, millis: nat) -> Seq<char> {
    share_unc_text(server, share) + "\\wifichecker_"@ + decimal_text(millis) + ".dat"@
}

/// `a` starts with `\\`.
proof fn lemma_backslash_prefix(a: Seq<char>, b: Seq<char>)
    requires
        a.len() >= 2,
        a[0] == '\\',
        a[1] == '\\',
    ensures
        has_unc_prefix(a + b),
{
    assert((a + b)[0] == a[0]);
    assert((a + b)[1] == a[1]);
}

impl SmbTester {
    /// A test of `share` on `server`, logging in as guest.
    pub fn new(server: &str, share: &str) -> (t: Self)
        ensures
            t.server@ == server@,
            t.share@ == share@,
            t.username is None,
            t.password is None,
    {
        SmbTester {
            server: server.to_owned(),
            share: share.to_owned(),
            username: None,
            password: None,
        }
    }

    /// The share's UNC text.
    pub fn share_unc(&self) -> (s: String)
        ensures
            s@ == share_unc_text(self.server@, self.share@),
    {
        let mut s = "\\\\".to_owned();
        s.append(self.server.as_str());
        s.append("\\");
        s.append(self.share.as_str());
        proof {
            reveal_strlit("\\\\");
            reveal_strlit("\\");
            assert(s@ =~= share_unc_text(self.server@, self.share@));
        }
        s
    }

    /// UNC text of the test file written at `millis` milliseconds since the
    /// epoch.
    pub fn test_file_unc(&self, millis: u128) -> (s: String)
        ensures
            s@ == test_file_unc_text(self.server@, self.share@, millis as nat),
    {
        let mut s = self.share_unc();
        s.append("\\wifichecker_");
        s.append(decimal_string(millis).as_str());
        s.append(".dat");
        s
    }

    /// The share as a UNC path. Its text starts with `\\`, which the path
    /// parser always accepts.
    pub fn share_path(&self) -> (p: UncPath)
        ensures
            p == unc_path_of(share_unc_text(self.server@, self.share@)),
    {
        let text = self.share_unc();
        proof {
            lemma_backslash_prefix(seq!['\\', '\\'], self.server@ + seq!['\\'] + self.share@);
            assert(text@ =~= seq!['\\', '\\'] + (self.server@ + seq!['\\'] + self.share@));
        }
        match parse_unc_path(text.as_str()) {
            Ok(p) => p,
            Err(_) => {
                assert(false);
                unreached()
            },
        }
    }

    /// The test file as a UNC path.
    pub fn test_file_path(&self, millis: u128) -> (p: UncPath)
        ensures
            p == unc_path_of(test_file_unc_text(self.server@, self.share@, millis as nat)),
    {
        let text = self.test_file_unc(millis);
        proof {
            let rest = self.server@ + seq!['\\'] + self.share@ + "\\wifichecker_"@ + decimal_text(
                millis as nat,
            ) + ".dat"@;
            lemma_backslash_prefix(seq!['\\', '\\'], rest);
            assert(text@ =~= seq!['\\', '\\'] + rest);
        }
        match parse_unc_path(text.as_str()) {
            Ok(p) => p,
            Err(_) => {
                assert(false);
                unreached()
            },
        }
    }

    /// The user to log in as: the configured one, else `guest`.
    pub fn login_user(&self) -> (u: String)
        ensures
            u@ == (match self.username {
                Some(name) => name@,
                None => "guest"@,
            }),
    {
        match &self.username {
            Some(name) => name.clone(),
            None => "guest".to_owned(),
        }
    }

    /// The password to log in with: the configured one, else empty.
    pub fn login_password(&self) -> (p: String)
        ensures
            p@ == (match self.password {
                Some(pw) => pw@,
                None => Seq::<char>::empty(),
            }),
    {
        match &self.password {
            Some(pw) => pw.clone(),
            None => String::new(),
        }
    }
}

/// How much of the test file the share has taken so far.
#[derive(Debug, Clone, Copy)]
pub struct UploadProgress {
    /// Bytes written so far; the next block goes here.
    pub offset: u64,
}

impl UploadProgress {
    /// Nothing written yet.
    pub fn new() -> (p: Self)
        ensures
            p.offset == 0,
    {
        UploadProgress { offset: 0 }
    }

    /// Where the next block is written, or `None` once the whole test file
    /// has been written.
    pub fn next_offset(&self) -> (r: Option<u64>)
        ensures
            r == (if self.offset < TEST_FILE_BYTES {
                Some(self.offset)
            } else {
                None::<u64>
            }),
    {
        if self.offset < TEST_FILE_BYTES {
            Some(self.offset)
        } else {
            None
        }
    }

    /// Counts a block of which the share took `written` bytes; the count
    /// stops at `u64::MAX`.
    pub fn record(&mut self, written: usize)
        ensures
            final(self).offset == (if old(self).offset + written > u64::MAX {
                u64::MAX as int
            } else {
                old(self).offset + written
            }),
    {
        let w = written as u64;
        if w > u64::MAX - self.offset {
            self.offset = u64::MAX;
        } else {
            self.offset = self.offset + w;
        }
    }
}

} // verus!

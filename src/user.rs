use vstd::prelude::*;

use vstd::utf8::encode_utf8;

use crate::flags::{flags_has, flags_set, flags_unset};
use crate::text::{hex_lower, hex_of, lower_of, lowercase, trim_of, trim_str};

verus! {

/// What `md5::compute` returns for a byte string: its sixteen-byte digest.
pub uninterp spec fn md5_of(data: Seq<u8>) -> Seq<u8>;

/// Relies on md5::compute: the digest depends on the bytes alone.
#[verifier::external_body]
fn md5_digest(data: &[u8]) -> (r: [u8; 16])
    ensures
        r@ == md5_of(data@),
{
    md5::compute(data).0
}

/// Relies on uuid::Uuid::new_v4 and its hyphenated text form: a random
/// identifier of thirty-six characters.
#[verifier::external_body]
fn fresh_id() -> (r: String)
    ensures
        r@.len() == 36,
{
    uuid::Uuid::new_v4().to_string()
}

/// The avatar hash of an email address: the hexadecimal md5 digest of the
/// address trimmed and lower-cased. It is derived, never stored.
pub open spec fn avatar_hash_of(email: Seq<char>) -> Seq<char> {
    hex_of(md5_of(encode_utf8(lower_of(trim_of(email)))))
}

/// A stored user account.
pub struct User {
    /// Opaque unique identifier, fixed at creation.
    pub id: String,
    /// Display name; not unique.
    pub username: String,
    /// Login key, compared exactly.
    pub email: String,
    /// The salted password digest; never the plaintext.
    pub password: String,
    /// Auxiliary credential material, such as a second-factor seed.
    pub secret: Option<String>,
    /// Packed independent boolean attributes.
    pub flags: i32,
}

impl Clone for User {
    fn clone(&self) -> (r: Self)
        ensures
            r == *self,
    {
        let secret = match &self.secret {
            Some(s) => Some(s.clone()),
            None => None,
        };
        User {
            id: self.id.clone(),
            username: self.username.clone(),
            email: self.email.clone(),
            password: self.password.clone(),
            secret,
            flags: self.flags,
        }
    }
}

impl User {
    /// A new account record under a freshly drawn identifier, with no
    /// secret and no flag set. `password` is the digest to store.
    pub fn new_record(username: String, email: String, password: String) -> (r: User)
        ensures
            r.id@.len() == 36,
            r.username == username,
            r.email == email,
            r.password == password,
            r.secret is None,
            r.flags == 0,
    {
        User { id: fresh_id(), username, email, password, secret: None, flags: 0 }
    }

    /// The avatar hash of this account's email address.
    pub fn get_gravatar_hash(&self) -> (r: String)
        ensures
            r@ == avatar_hash_of(self.email@),
    {
        let trimmed = trim_str(self.email.as_str());
        let lower = lowercase(trimmed);
        let digest = md5_digest(lower.as_str().as_bytes());
        hex_lower(&digest)
    }

    /// Whether every bit of `flag` is set on this account.
    pub fn has_flag(&self, flag: i32) -> (r: bool)
        ensures
            r == flags_has(self.flags, flag),
    {
        self.flags & flag == flag
    }

    /// Sets every bit of `flag`, leaving the rest of the record alone.
    pub fn set_flag(&mut self, flag: i32)
        ensures
            *final(self) == (User { flags: flags_set(old(self).flags, flag), ..*old(self) }),
    {
        self.flags = self.flags | flag;
    }

    /// Clears every bit of `flag`, leaving the rest of the record alone.
    pub fn unset_flag(&mut self, flag: i32)
        ensures
            *final(self) == (User { flags: flags_unset(old(self).flags, flag), ..*old(self) }),
    {
        self.flags = self.flags & !flag;
    }
}

} // verus!

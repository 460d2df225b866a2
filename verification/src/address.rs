//! Disposable email addresses: a local part of seven random alphanumeric
//! characters and a domain drawn from the fixed three-element allow-list.

use rand::Rng;
use vstd::prelude::*;

verus! {

/// An ASCII digit, upper-case letter or lower-case letter, as a byte.
pub open spec fn is_alnum_byte(b: u8) -> bool {
    ||| '0' as u32 <= b as u32 <= '9' as u32
    ||| 'A' as u32 <= b as u32 <= 'Z' as u32
    ||| 'a' as u32 <= b as u32 <= 'z' as u32
}

/// An ASCII digit, upper-case letter or lower-case letter, as a character.
pub open spec fn is_alnum_char(c: char) -> bool {
    ||| '0' as u32 <= c as u32 <= '9' as u32
    ||| 'A' as u32 <= c as u32 <= 'Z' as u32
    ||| 'a' as u32 <= c as u32 <= 'z' as u32
}

/// The fixed allow-list of relay domains.
pub open spec fn is_allowed_domain(d: Seq<char>) -> bool {
    ||| d == "1secmail.com"@
    ||| d == "1secmail.net"@
    ||| d == "1secmail.org"@
}

/// A disposable email address: `user@domain`.
pub struct EmailAddr {
    user: String,
    domain: String,
}

/// Relies on rand's `Alphanumeric` distribution: every sample is drawn from
/// the ASCII letters and digits, whatever the generator yields.
#[verifier::external_body]
fn random_alnum_byte() -> (b: u8)
    ensures
        is_alnum_byte(b),
{
    rand::thread_rng().sample(rand::distributions::Alphanumeric)
}

/// Relies on rand's `Rng::gen_range`: on a non-empty range the result lies in
/// the range, whatever the generator yields.
#[verifier::external_body]
fn pick_index(n: usize) -> (i: usize)
    requires
        0 < n,
    ensures
        i < n,
{
    rand::thread_rng().gen_range(0..n)
}

/// Relies on `String::from_utf8`: bytes below 128 are one-byte UTF-8 and
/// decode to the characters with the same code points.
#[verifier::external_body]
pub(crate) fn ascii_to_string(v: Vec<u8>) -> (r: String)
    requires
        forall|i: int| 0 <= i < v@.len() ==> v@[i] < 128,
    ensures
        r@.len() == v@.len(),
        forall|i: int| 0 <= i < v@.len() ==> (#[trigger] r@[i]) as u32 == v@[i] as u32,
{
    String::from_utf8(v).unwrap()
}

impl EmailAddr {
    /// The local part (what stands before the `@`).
    pub closed spec fn spec_user(&self) -> Seq<char> {
        self.user@
    }

    /// The domain (what stands after the `@`).
    pub closed spec fn spec_domain(&self) -> Seq<char> {
        self.domain@
    }

    /// A well-formed address: the local part is exactly seven alphanumeric
    /// characters and the domain is one of the three allowed ones.
    pub open spec fn wf(&self) -> bool {
        &&& self.spec_user().len() == 7
        &&& forall|i: int|
            0 <= i < self.spec_user().len() ==> is_alnum_char(#[trigger] self.spec_user()[i])
        &&& is_allowed_domain(self.spec_domain())
    }

    /// Generates a fresh address: seven alphanumeric characters drawn at
    /// random, and a domain picked at random from the allow-list.
    pub fn new() -> (r: EmailAddr)
        ensures
            r.wf(),
    {
        let mut bytes: Vec<u8> = Vec::new();
        let mut k: usize = 0;
        while k < 7
            invariant
                k <= 7,
                bytes@.len() == k,
                forall|i: int| 0 <= i < bytes@.len() ==> is_alnum_byte(#[trigger] bytes@[i]),
            decreases 7 - k,
        {
            let b = random_alnum_byte();
            bytes.push(b);
            k = k + 1;
        }
        let user = ascii_to_string(bytes);
        let pick = pick_index(3);
        let domain = if pick == 0 {
            String::from_str("1secmail.com")
        } else if pick == 1 {
            String::from_str("1secmail.net")
        } else {
            String::from_str("1secmail.org")
        };
        EmailAddr { user, domain }
    }

    /// The local part as a string slice.
    pub fn user(&self) -> (r: &str)
        ensures
            r@ == self.spec_user(),
    {
        self.user.as_str()
    }

    /// The domain as a string slice.
    pub fn domain(&self) -> (r: &str)
        ensures
            r@ == self.spec_domain(),
    {
        self.domain.as_str()
    }

    /// The display form `user@domain`.
    pub fn address_string(&self) -> (r: String)
        ensures
            r@ == self.spec_user() + "@"@ + self.spec_domain(),
    {
        let mut out = self.user.clone();
        out.append("@");
        out.append(self.domain.as_str());
        out
    }
}

impl Clone for EmailAddr {
    /// The clone equals the value it was made from.
    fn clone(&self) -> (r: Self)
        ensures
            r == *self,
    {
        EmailAddr { user: self.user.clone(), domain: self.domain.clone() }
    }
}

} // verus!

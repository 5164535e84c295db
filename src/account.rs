//! Sign-up and sign-in: the form value a request carries, the private key a
//! new user is given, and the fragment that shows it.
use vstd::prelude::*;
use vstd::string::StrSliceExecFns;

use crate::auth::UserId;
use crate::text::{escape, escape_html, hex_nat, hex_u64};

verus! {

/// `v` is the form value of `s`: the text after the first `=`, up to the next
/// `=` or the end.
pub open spec fn is_form_value(s: Seq<char>, v: Seq<char>) -> bool {
    exists|i: int, j: int|
        0 <= i < j <= s.len() && s[i] == '=' && (forall|k: int| 0 <= k < i ==> s[k] != '=') && (j
            == s.len() || s[j] == '=') && (forall|k: int| i < k < j ==> s[k] != '=') && v
            == #[trigger] s.subrange(i + 1, j)
}

/// The value of a one-field form body `name=value`; `None` when the body has
/// no `=`.
pub fn form_value(payload: &str) -> (r: Option<String>)
    ensures
        r is None <==> (forall|k: int| 0 <= k < payload@.len() ==> payload@[k] != '='),
        r matches Some(v) ==> is_form_value(payload@, v@),
{
    let n = payload.unicode_len();
    let mut i: usize = 0;
    while i < n && payload.get_char(i) != '='
        invariant
            n == payload@.len(),
            i <= n,
            forall|k: int| 0 <= k < i ==> payload@[k] != '=',
        decreases n - i,
    {
        i = i + 1;
    }
    if i == n {
        return None;
    }
    let mut j: usize = i + 1;
    while j < n && payload.get_char(j) != '='
        invariant
            n == payload@.len(),
            i < j <= n,
            forall|k: int| i < k < j ==> payload@[k] != '=',
        decreases n - j,
    {
        j = j + 1;
    }
    let v = payload.substring_char(i + 1, j).to_owned();
    let ghost s = payload@;
    let ghost a = i as int;
    let ghost b = j as int;
    assert(s[a] == '=');
    assert(b == s.len() || s[b] == '=');
    assert(v@ == s.subrange(a + 1, b));
    assert(is_form_value(s, v@));
    Some(v)
}

/// The 64-bit digest that std's default hasher gives a user's identifier.
pub uninterp spec fn user_digest_of(bits: u128) -> u64;

/// Relies on `BuildHasher::hash_one` of std with `BuildHasherDefault<DefaultHasher>`
/// (fixed keys) over uuid's `Uuid::from_u128`: the digest depends on the
/// identifier alone.
#[verifier::external_body]
fn user_digest(bits: u128) -> (r: u64)
    ensures
        r == user_digest_of(bits),
{
    let builder = std::hash::BuildHasherDefault::<std::collections::hash_map::DefaultHasher>::default();
    std::hash::BuildHasher::hash_one(&builder, uuid::Uuid::from_u128(bits))
}

/// The private key of a user: `0x` and the digest of the identifier in
/// lowercase hexadecimal.
pub open spec fn user_key_of(bits: u128) -> Seq<char> {
    seq!['0', 'x'] + hex_nat(user_digest_of(bits) as nat)
}

/// The private key that a new user signs in with.
pub fn user_key(user: UserId) -> (r: String)
    ensures
        r@ == user_key_of(user.bits),
{
    let digits = hex_u64(user_digest(user.bits));
    proof {
        reveal_strlit("0x");
    }
    let r = "0x".to_owned().concat(digits.as_str());
    assert(r@ =~= user_key_of(user.bits));
    r
}

pub const SIGN_UP_OPEN: &'static str = "<div class='bg-secondary shadow sm:rounded-lg p-6 mx-auto mt-10' style='width: 50%;'><h3 class='px-4 text-base font-semibold leading-6 text-white text-center'>Save Your Private Key:</h3><div class='mt-2 text-sm text-gray-300 text-center'><p>If on web save it as a file (recommended to use encrypted filesystem)</p><p>If on mobile save it in notes</p></div><div hx-boost='true' class='flex flex-col items-center w-full'><div class='flex pt-3 mb-5 w-full mx-auto items-center'><label class='inline-block text-xs font-medium text-white ml-auto align-middle'>Private Key: </label><input id='hash-key' class='inline-block w-1/3 rounded-md ml-1 mr-auto border-0 py-1.5 text-gray-900 shadow-sm ring-1 ring-inset ring-gray-300 placeholder:text-gray-400 focus:ring-2 focus:ring-inset focus:ring-indigo-600 sm:text-sm sm:leading-6 text-center' value='";

pub const SIGN_UP_CLOSE: &'static str = "'></input></div><a href='/sign-in' class='mt-10 w-12 items-center justify-center rounded-md bg-accent px-3 py-2 text-sm font-semibold text-white shadow-sm hover:bg-indigo-500 focus-visible:outline focus-visible:outline-2 focus-visible:outline-offset-2 focus-visible:outline-indigo-600 sm:ml-3 sm:mt-0 sm:w-auto'>I Saved It</a></div></div>";

/// The fragment that shows a new user the private key.
pub fn sign_up_html(key: &str) -> (r: String)
    ensures
        r@ == SIGN_UP_OPEN@ + escape_html(key@) + SIGN_UP_CLOSE@,
{
    let mut out = SIGN_UP_OPEN.to_owned();
    out.append(escape(key).as_str());
    out.append(SIGN_UP_CLOSE);
    out
}

} // verus!

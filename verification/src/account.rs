//! Account references for the host ledger, modelled as strings over the
//! ledger's allowed account-name alphabet: lowercase letters, digits and
//! the separators `-`, `_` and `.`, where an account name is 2 to 64
//! characters, begins and ends with a letter or digit, and never has two
//! separators in a row.
use vstd::prelude::*;

verus! {

/// Lowercase ASCII letter or digit.
pub open spec fn is_account_alnum(c: char) -> bool {
    ('a' <= c && c <= 'z') || ('0' <= c && c <= '9')
}

/// Separator allowed inside an account name.
pub open spec fn is_account_sep(c: char) -> bool {
    c == '-' || c == '_' || c == '.'
}

/// Any character allowed in an account name.
pub open spec fn is_account_char(c: char) -> bool {
    is_account_alnum(c) || is_account_sep(c)
}

/// The ledger's account-name rule.
pub open spec fn valid_account_id(s: Seq<char>) -> bool {
    &&& 2 <= s.len() <= 64
    &&& forall|i: int| 0 <= i < s.len() ==> is_account_char(#[trigger] s[i])
    &&& is_account_alnum(s[0])
    &&& is_account_alnum(s[s.len() - 1])
    &&& forall|i: int|
        0 <= i < s.len() - 1 ==> !(is_account_sep(#[trigger] s[i]) && is_account_sep(s[i + 1]))
}

/// A validated account reference. Values of this type always satisfy
/// [`valid_account_id`]; they are only built through [`AccountId::new`].
#[derive(Debug)]
pub struct AccountId {
    id: String,
}

impl View for AccountId {
    type V = Seq<char>;

    closed spec fn view(&self) -> Seq<char> {
        self.id@
    }
}

impl Clone for AccountId {
    fn clone(&self) -> (r: Self)
        ensures
            r@ == self@,
    {
        AccountId { id: self.id.clone() }
    }
}

impl PartialEq for AccountId {
    fn eq(&self, other: &Self) -> (r: bool) {
        self.id == other.id
    }
}

impl vstd::std_specs::cmp::PartialEqSpecImpl for AccountId {
    open spec fn obeys_eq_spec() -> bool {
        true
    }

    open spec fn eq_spec(&self, other: &Self) -> bool {
        self@ == other@
    }
}

impl Eq for AccountId {}

impl AccountId {
    /// Every account reference in circulation is well formed.
    pub open spec fn wf(&self) -> bool {
        valid_account_id(self@)
    }

    /// Parse a string as an account reference; `None` exactly on strings
    /// that break the account-name rule.
    pub fn new(id: String) -> (r: Option<AccountId>)
        ensures
            r is Some <==> valid_account_id(id@),
            r matches Some(a) ==> a@ == id@ && a.wf(),
    {
        let s = id.as_str();
        let n: usize = s.unicode_len();
        if n < 2 || n > 64 {
            return None;
        }
        let mut i: usize = 0;
        let mut prev_sep: bool = false;
        while i < n
            invariant
                0 <= i <= n,
                id@ == s@,
                n == s@.len(),
                2 <= n <= 64,
                forall|k: int| 0 <= k < i ==> is_account_char(#[trigger] s@[k]),
                i > 0 ==> is_account_alnum(s@[0]),
                i > 0 ==> (prev_sep == is_account_sep(s@[i - 1])),
                forall|k: int|
                    0 <= k < i - 1 ==> !(is_account_sep(#[trigger] s@[k]) && is_account_sep(
                        s@[k + 1],
                    )),
            decreases n - i,
        {
            let c = s.get_char(i);
            let alnum = ('a' <= c && c <= 'z') || ('0' <= c && c <= '9');
            let sep = c == '-' || c == '_' || c == '.';
            if !alnum && !sep {
                return None;
            }
            if i == 0 && !alnum {
                return None;
            }
            if sep && prev_sep {
                return None;
            }
            prev_sep = sep;
            i = i + 1;
        }
        if prev_sep {
            return None;
        }
        Some(AccountId { id })
    }

    /// The account name as a string slice.
    pub fn as_str(&self) -> (r: &str)
        ensures
            r@ == self@,
    {
        self.id.as_str()
    }
}

/// The sub-account name `prefix + "." + parent`.
pub fn join_subaccount(prefix: &str, parent: &AccountId) -> (r: String)
    ensures
        r@ == prefix@ + "."@ + parent@,
{
    let joined = prefix.to_owned().concat(".").concat(parent.as_str());
    joined
}

} // verus!

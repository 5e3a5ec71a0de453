//! The root authorization bridge: it turns an authenticated command line
//! into a typed instruction, derives the per-sender identity, and decides
//! which privileged instruction to emit.
use crate::account::{valid_account_id, AccountId};
use crate::command::{
    cmd_result_view, parse_decimal_cents, spec_parse_command, spec_valid_key, CmdView, CommandEnum,
    CENT,
};
use crate::email::{
    first_header, header_addr_singles, header_addrs, header_value, mail_has_header,
    mail_header_value, mime_parse, mime_parses,
};
use crate::instructions::{
    instr_result_view, HostInstruction, InstrView, CALL_GAS, CALL_GAS_WEIGHT, MIN_STORAGE,
};
use crate::strutil::{push_char, split_ws, starts_with_str, str_eq, trim_str};
use crate::AuthError;
use vstd::prelude::*;

verus! {

/// The bridge contract. It keeps no durable state of its own: every
/// invocation is a pure function of its input and the curated key-ring.
pub struct AuthManager {}

/// Characters accepted in a sender address by the identity mapping.
pub open spec fn sender_char_ok(c: char) -> bool {
    ('a' <= c && c <= 'z') || ('A' <= c && c <= 'Z') || ('0' <= c && c <= '9') || c == '@' || c
        == '.' || c == '_' || c == '-'
}

/// How one sender character maps into the identity: `@` and `.` become
/// `_`, everything else allowed is kept unchanged.
pub open spec fn map_sender_char(c: char) -> char {
    if c == '@' || c == '.' {
        '_'
    } else {
        c
    }
}

/// The identity prefix derived from a sender address.
pub open spec fn spec_sender_to_account(s: Seq<char>) -> Seq<char> {
    s.map(|i: int, c: char| map_sender_char(c))
}

/// Every character of `s` is accepted by the identity mapping.
pub open spec fn sender_all_ok(s: Seq<char>) -> bool {
    forall|i: int| 0 <= i < s.len() ==> sender_char_ok(#[trigger] s[i])
}

/// The account name of an identity's actuator: `prefix + "." + parent`.
pub open spec fn subaccount_name(prefix: Seq<char>, parent: Seq<char>) -> Seq<char> {
    prefix + "."@ + parent
}

/// What the bridge emits for one parsed command: exactly one instruction,
/// or an error. `DeleteKey` always fails loudly as unimplemented.
pub open spec fn spec_dispatch(cmd: CmdView, prefix: Seq<char>, bridge: Seq<char>) -> Result<
    InstrView,
    AuthError,
> {
    let account = subaccount_name(prefix, bridge);
    match cmd {
        CmdView::Init => {
            if valid_account_id(account) {
                Ok(
                    InstrView::CreateActuator {
                        account_id: account,
                        reserve: MIN_STORAGE as nat,
                        owner_id: bridge,
                        gas: CALL_GAS as nat,
                    },
                )
            } else {
                Err(AuthError::UnsupportedCharacter)
            }
        },
        CmdView::AddKey(k) => {
            if valid_account_id(account) {
                Ok(
                    InstrView::CallAddKey {
                        account_id: account,
                        public_key: k,
                        gas: CALL_GAS as nat,
                        gas_weight: CALL_GAS_WEIGHT as nat,
                    },
                )
            } else {
                Err(AuthError::UnsupportedCharacter)
            }
        },
        CmdView::Transfer(to, amount) => {
            if valid_account_id(account) {
                Ok(
                    InstrView::CallTransfer {
                        account_id: account,
                        to: to,
                        amount: amount,
                        gas: CALL_GAS as nat,
                        gas_weight: CALL_GAS_WEIGHT as nat,
                    },
                )
            } else {
                Err(AuthError::UnsupportedCharacter)
            }
        },
        CmdView::DeleteKey => Err(AuthError::Unimplemented),
    }
}

/// What authenticating a raw message yields: the single sender address
/// and the subject line, or the first failure. The summary is what the
/// signature verifier reported; only exactly `pass` is accepted.
pub open spec fn spec_verify_email(b: Seq<u8>, summary: Seq<char>) -> Result<
    (Seq<char>, Seq<char>),
    AuthError,
> {
    if !mime_parses(b) {
        Err(AuthError::MalformedEmail)
    } else if summary != "pass"@ {
        Err(AuthError::SignatureVerificationFailed)
    } else if !mail_has_header(b, "From"@) {
        Err(AuthError::MalformedEmail)
    } else if header_addrs(b, "From"@) is None {
        Err(AuthError::MalformedEmail)
    } else {
        let addrs = header_addrs(b, "From"@)->Some_0;
        if addrs.len() > 1 {
            Err(AuthError::MultipleSenders)
        } else if addrs.len() == 0 || addrs[0] is None {
            Err(AuthError::MalformedEmail)
        } else if !mail_has_header(b, "Subject"@) {
            Err(AuthError::MalformedEmail)
        } else {
            Ok((addrs[0]->Some_0, mail_header_value(b, "Subject"@)))
        }
    }
}

/// An authentication outcome, with the strings abstracted to their views.
pub open spec fn pair_result_view(r: Result<(String, String), AuthError>) -> Result<
    (Seq<char>, Seq<char>),
    AuthError,
> {
    match r {
        Ok(p) => Ok((p.0@, p.1@)),
        Err(e) => Err(e),
    }
}

/// The whole pipeline on one raw message: authenticate, map the sender to
/// an identity, parse the subject line, dispatch. Any failure aborts the
/// invocation; no instruction is emitted for a failed pipeline.
pub open spec fn spec_receive_email(b: Seq<u8>, summary: Seq<char>, bridge: Seq<char>) -> Result<
    InstrView,
    AuthError,
> {
    match spec_verify_email(b, summary) {
        Err(e) => Err(e),
        Ok(pair) => {
            if !sender_all_ok(pair.0) {
                Err(AuthError::UnsupportedCharacter)
            } else {
                match spec_parse_command(pair.1) {
                    Err(e) => Err(e),
                    Ok(cmd) => spec_dispatch(cmd, spec_sender_to_account(pair.0), bridge),
                }
            }
        },
    }
}

/// A message whose signature verification reported anything but exactly
/// `pass` — tampered, unsigned, or merely `neutral` — never dispatches,
/// regardless of the syntactic validity of its MIME structure.
pub proof fn lemma_unverified_never_dispatches(b: Seq<u8>, summary: Seq<char>, bridge: Seq<char>)
    requires
        summary != "pass"@,
    ensures
        spec_receive_email(b, summary, bridge) is Err,
        mime_parses(b) ==> spec_receive_email(b, summary, bridge) == Err::<InstrView, AuthError>(
            AuthError::SignatureVerificationFailed,
        ),
{
}

/// A `DeleteKey` command never becomes a silent no-op: dispatch rejects
/// it loudly as unimplemented, for every identity and bridge account.
pub proof fn lemma_delete_key_loud(prefix: Seq<char>, bridge: Seq<char>)
    ensures
        spec_dispatch(CmdView::DeleteKey, prefix, bridge) == Err::<InstrView, AuthError>(
            AuthError::Unimplemented,
        ),
{
}

/// The pipeline form of the same law: a message that authenticates, maps
/// to an identity, and parses to `DeleteKey` makes the whole invocation
/// abort as unimplemented; no instruction is emitted.
pub proof fn lemma_receive_delete_key_loud(b: Seq<u8>, summary: Seq<char>, bridge: Seq<char>)
    requires
        spec_verify_email(b, summary) matches Ok(p) && sender_all_ok(p.0) && spec_parse_command(
            p.1,
        ) == Ok::<CmdView, AuthError>(CmdView::DeleteKey),
    ensures
        spec_receive_email(b, summary, bridge) == Err::<InstrView, AuthError>(
            AuthError::Unimplemented,
        ),
{
}

impl AuthManager {
    /// The bridge starts with no state.
    pub fn new_contract() -> (r: Self)
        ensures
            r == (AuthManager {  }),
    {
        AuthManager {  }
    }

    /// Accepts exactly the well-formed key material of [`spec_valid_key`];
    /// everything else is an [`AuthError::InvalidKeyFormat`].
    pub fn validate_key(key: &String) -> (r: Result<(), AuthError>)
        ensures
            r is Ok <==> spec_valid_key(key@),
            r is Err ==> r == Err::<(), AuthError>(AuthError::InvalidKeyFormat),
    {
        let s = key.as_str();
        let n: usize = s.unicode_len();
        proof {
            reveal_strlit("ed25519:");
        }
        if !starts_with_str(s, "ed25519:") {
            return Err(AuthError::InvalidKeyFormat);
        }
        if n != 52 {
            return Err(AuthError::InvalidKeyFormat);
        }
        let mut i: usize = 8;
        while i < 52
            invariant
                8 <= i <= 52,
                n == 52,
                n == s@.len(),
                s@ == key@,
                forall|k: int| 8 <= k < i ==> crate::command::is_ascii_alnum(#[trigger] s@[k]),
            decreases 52 - i,
        {
            let c = s.get_char(i);
            if !(('a' <= c && c <= 'z') || ('A' <= c && c <= 'Z') || ('0' <= c && c <= '9')) {
                return Err(AuthError::InvalidKeyFormat);
            }
            i = i + 1;
        }
        Ok(())
    }

    /// Parse a command line. The result is exactly
    /// [`spec_parse_command`] of the input: total and deterministic.
    pub fn parse_command(header: String) -> (r: Result<CommandEnum, AuthError>)
        ensures
            cmd_result_view(r) == spec_parse_command(header@),
    {
        let s = header.as_str();
        if str_eq(s, "init") {
            return Ok(CommandEnum::Init);
        }
        if starts_with_str(s, "add_key") {
            proof {
                reveal_strlit("add_key");
            }
            let n: usize = s.unicode_len();
            let rest = s.substring_char(7, n);
            proof {
                assert(rest@ =~= s@.skip(7));
            }
            let key = trim_str(rest);
            match Self::validate_key(&key) {
                Ok(()) => {
                    return Ok(CommandEnum::AddKey(key));
                },
                Err(e) => {
                    return Err(e);
                },
            }
        }
        if starts_with_str(s, "delete_key") {
            return Ok(CommandEnum::DeleteKey);
        }
        if starts_with_str(s, "transfer") {
            let toks = split_ws(s);
            if toks.len() != 3 {
                return Err(AuthError::UnrecognizedCommand);
            }
            proof {
                assert(toks.deep_view()[0] == toks@[0]@);
                assert(toks.deep_view()[1] == toks@[1]@);
                assert(toks.deep_view()[2] == toks@[2]@);
            }
            if !str_eq(toks[0].as_str(), "transfer") {
                return Err(AuthError::UnrecognizedCommand);
            }
            match parse_decimal_cents(toks[2].as_str()) {
                None => {
                    return Err(AuthError::InvalidTransferAmount);
                },
                Some(p) => {
                    let (cents, pos) = p;
                    if !pos {
                        return Err(AuthError::InvalidTransferAmount);
                    }
                    let amount: u128 = cents * CENT;
                    match AccountId::new(toks[1].clone()) {
                        None => {
                            return Err(AuthError::UnrecognizedCommand);
                        },
                        Some(a) => {
                            return Ok(CommandEnum::Transfer(a, amount));
                        },
                    }
                },
            }
        }
        Err(AuthError::UnrecognizedCommand)
    }

    /// Derive the identity prefix from a sender address: letters, digits,
    /// `_` and `-` are kept, `@` and `.` become `_`, anything else is an
    /// [`AuthError::UnsupportedCharacter`].
    pub fn sender_to_account(sender: String) -> (r: Result<String, AuthError>)
        ensures
            r is Ok <==> sender_all_ok(sender@),
            r matches Ok(p) ==> p@ == spec_sender_to_account(sender@),
            r is Err ==> r == Err::<String, AuthError>(AuthError::UnsupportedCharacter),
    {
        let s = sender.as_str();
        let n: usize = s.unicode_len();
        let mut out = String::new();
        let mut i: usize = 0;
        proof {
            assert(out@ =~= spec_sender_to_account(sender@.take(0)));
        }
        while i < n
            invariant
                0 <= i <= n,
                n == s@.len(),
                s@ == sender@,
                forall|k: int| 0 <= k < i ==> sender_char_ok(#[trigger] s@[k]),
                out@ == spec_sender_to_account(sender@.take(i as int)),
            decreases n - i,
        {
            let c = s.get_char(i);
            let ok = ('a' <= c && c <= 'z') || ('A' <= c && c <= 'Z') || ('0' <= c && c <= '9')
                || c == '@' || c == '.' || c == '_' || c == '-';
            if !ok {
                return Err(AuthError::UnsupportedCharacter);
            }
            let mapped: char = if c == '@' || c == '.' {
                '_'
            } else {
                c
            };
            push_char(&mut out, mapped);
            proof {
                assert(out@ =~= spec_sender_to_account(sender@.take(i + 1)));
            }
            i = i + 1;
        }
        proof {
            assert(sender@.take(n as int) =~= sender@);
        }
        Ok(out)
    }

    /// The `Init` instruction chain for an identity: create its account,
    /// fund the reserve, deploy the actuator, run the constructor with
    /// the bridge as owner. Fails when the joined name breaks the
    /// account-name rule.
    pub fn create_new_subaccount(prefix: String, bridge_account: &AccountId) -> (r: Result<
        HostInstruction,
        AuthError,
    >)
        ensures
            instr_result_view(r) == spec_dispatch(CmdView::Init, prefix@, bridge_account@),
    {
        let joined = crate::account::join_subaccount(prefix.as_str(), bridge_account);
        match AccountId::new(joined) {
            None => Err(AuthError::UnsupportedCharacter),
            Some(account_id) => Ok(
                HostInstruction::CreateActuator {
                    account_id,
                    reserve: MIN_STORAGE,
                    owner_id: bridge_account.clone(),
                    gas: CALL_GAS,
                },
            ),
        }
    }

    /// The `AddKey` instruction for an identity's actuator.
    pub fn add_key(prefix: String, key: String, bridge_account: &AccountId) -> (r: Result<
        HostInstruction,
        AuthError,
    >)
        ensures
            instr_result_view(r) == spec_dispatch(CmdView::AddKey(key@), prefix@, bridge_account@),
    {
        let joined = crate::account::join_subaccount(prefix.as_str(), bridge_account);
        match AccountId::new(joined) {
            None => Err(AuthError::UnsupportedCharacter),
            Some(account_id) => Ok(
                HostInstruction::CallAddKey {
                    account_id,
                    public_key: key,
                    gas: CALL_GAS,
                    gas_weight: CALL_GAS_WEIGHT,
                },
            ),
        }
    }

    /// The `Transfer` instruction for an identity's actuator.
    pub fn transfer(prefix: String, to: AccountId, amount: u128, bridge_account: &AccountId) -> (r:
        Result<HostInstruction, AuthError>)
        ensures
            instr_result_view(r) == spec_dispatch(
                CmdView::Transfer(to@, amount as nat),
                prefix@,
                bridge_account@,
            ),
    {
        let joined = crate::account::join_subaccount(prefix.as_str(), bridge_account);
        match AccountId::new(joined) {
            None => Err(AuthError::UnsupportedCharacter),
            Some(account_id) => Ok(
                HostInstruction::CallTransfer {
                    account_id,
                    to,
                    amount,
                    gas: CALL_GAS,
                    gas_weight: CALL_GAS_WEIGHT,
                },
            ),
        }
    }

    /// Authenticate a raw message: parse its MIME structure, require the
    /// signature verifier's summary to be exactly `pass`, and extract the
    /// single sender address and the subject line. The summary is the
    /// verdict the trusted signature library gave for these bytes.
    pub fn verify_email(full_email: Vec<u8>, dkim_summary: &String) -> (r: Result<
        (String, String),
        AuthError,
    >)
        ensures
            pair_result_view(r) == spec_verify_email(full_email@, dkim_summary@),
    {
        let m = match mime_parse(full_email.as_slice()) {
            Ok(m) => m,
            Err(_) => {
                return Err(AuthError::MalformedEmail);
            },
        };
        if !str_eq(dkim_summary.as_str(), "pass") {
            return Err(AuthError::SignatureVerificationFailed);
        }
        let fh = match first_header(&m, "From") {
            Some(h) => h,
            None => {
                return Err(AuthError::MalformedEmail);
            },
        };
        let addrs = match header_addr_singles(fh) {
            Ok(v) => v,
            Err(_) => {
                return Err(AuthError::MalformedEmail);
            },
        };
        if addrs.len() > 1 {
            return Err(AuthError::MultipleSenders);
        }
        if addrs.len() == 0 {
            return Err(AuthError::MalformedEmail);
        }
        let sender = match &addrs[0] {
            Some(s) => s.clone(),
            None => {
                return Err(AuthError::MalformedEmail);
            },
        };
        let sh = match first_header(&m, "Subject") {
            Some(h) => h,
            None => {
                return Err(AuthError::MalformedEmail);
            },
        };
        let subject = header_value(sh);
        proof {
            assert(addrs.deep_view()[0] == addrs@[0].deep_view());
        }
        Ok((sender, subject))
    }

    /// The single inbound entry point: authenticate, derive the identity,
    /// parse the command, and decide the one instruction to emit. Any
    /// failure aborts the whole invocation with no instruction.
    pub fn receive_email(
        full_email: Vec<u8>,
        dkim_summary: &String,
        bridge_account: &AccountId,
    ) -> (r: Result<HostInstruction, AuthError>)
        ensures
            instr_result_view(r) == spec_receive_email(
                full_email@,
                dkim_summary@,
                bridge_account@,
            ),
    {
        let pair = match Self::verify_email(full_email, dkim_summary) {
            Ok(p) => p,
            Err(e) => {
                return Err(e);
            },
        };
        let (sender, header) = pair;
        let prefix = match Self::sender_to_account(sender) {
            Ok(p) => p,
            Err(e) => {
                return Err(e);
            },
        };
        let cmd = match Self::parse_command(header) {
            Ok(c) => c,
            Err(e) => {
                return Err(e);
            },
        };
        match cmd {
            CommandEnum::Init => Self::create_new_subaccount(prefix, bridge_account),
            CommandEnum::AddKey(key) => Self::add_key(prefix, key, bridge_account),
            CommandEnum::Transfer(to, amount) => Self::transfer(
                prefix,
                to,
                amount,
                bridge_account,
            ),
            CommandEnum::DeleteKey => Err(AuthError::Unimplemented),
        }
    }
}

} // verus!

//! Reading a raw message: MIME parsing and header extraction, done by the
//! mailparse crate behind trusted wrappers. Each extraction result is a
//! function of the raw bytes alone, so the contracts name those results
//! and the verified pipeline reasons over the names.
use vstd::prelude::*;

verus! {

#[verifier::external_type_specification]
#[verifier::external_body]
pub struct ExParsedMail<'a>(mailparse::ParsedMail<'a>);

#[verifier::external_type_specification]
#[verifier::external_body]
pub struct ExMailHeader<'a>(mailparse::MailHeader<'a>);

#[verifier::external_type_specification]
#[verifier::external_body]
pub struct ExMailParseError(mailparse::MailParseError);

/// Whether mailparse::parse_mail accepts the bytes as a MIME message.
pub uninterp spec fn mime_parses(b: Seq<u8>) -> bool;

/// The raw bytes a parsed mail was produced from.
pub uninterp spec fn mail_source(m: &mailparse::ParsedMail) -> Seq<u8>;

/// Whether the message holds a header matching the key.
pub uninterp spec fn mail_has_header(b: Seq<u8>, key: Seq<char>) -> bool;

/// The decoded value of the first header matching the key.
pub uninterp spec fn mail_header_value(b: Seq<u8>, key: Seq<char>) -> Seq<char>;

/// The raw bytes of the message a header was extracted from.
pub uninterp spec fn header_origin_source(h: &mailparse::MailHeader) -> Seq<u8>;

/// The key a header was extracted under.
pub uninterp spec fn header_origin_key(h: &mailparse::MailHeader) -> Seq<char>;

/// The address list parsed from the first header matching the key:
/// `None` when address parsing fails; otherwise one entry per address,
/// `Some(addr)` for a single mailbox and `None` for a group.
pub uninterp spec fn header_addrs(b: Seq<u8>, key: Seq<char>) -> Option<Seq<Option<Seq<char>>>>;

/// Relies on mailparse::parse_mail: whether bytes parse, and what they
/// parse to, is a function of the bytes alone.
#[verifier::external_body]
pub(crate) fn mime_parse(bytes: &[u8]) -> (r: Result<
    mailparse::ParsedMail<'_>,
    mailparse::MailParseError,
>)
    ensures
        r is Ok <==> mime_parses(bytes@),
        r matches Ok(m) ==> mail_source(&m) == bytes@,
{
    mailparse::parse_mail(bytes)
}

/// Relies on MailHeaderMap::get_first_header: the first header matching
/// the key, matched case-insensitively, a function of the mail and key.
#[verifier::external_body]
pub(crate) fn first_header<'a>(m: &'a mailparse::ParsedMail<'a>, key: &str) -> (r: Option<
    &'a mailparse::MailHeader<'a>,
>)
    ensures
        r is Some <==> mail_has_header(mail_source(m), key@),
        r matches Some(h) ==> header_origin_source(h) == mail_source(m) && header_origin_key(h)
            == key@,
{
    mailparse::MailHeaderMap::get_first_header(m.headers.as_slice(), key)
}

/// Relies on MailHeader::get_value: the decoded header value is a
/// function of the header alone.
#[verifier::external_body]
pub(crate) fn header_value(h: &mailparse::MailHeader) -> (r: String)
    ensures
        r@ == mail_header_value(header_origin_source(h), header_origin_key(h)),
{
    h.get_value()
}

/// Relies on mailparse::addrparse_header: the parsed address list is a
/// function of the header alone. Each single mailbox is handed out as its
/// address, each group as `None`.
#[verifier::external_body]
pub(crate) fn header_addr_singles(h: &mailparse::MailHeader) -> (r: Result<
    Vec<Option<String>>,
    mailparse::MailParseError,
>)
    ensures
        r is Ok <==> header_addrs(header_origin_source(h), header_origin_key(h)) is Some,
        r matches Ok(v) ==> Some(v.deep_view()) == header_addrs(
            header_origin_source(h),
            header_origin_key(h),
        ),
{
    match mailparse::addrparse_header(h) {
        Err(e) => Err(e),
        Ok(list) => {
            let mut out: Vec<Option<String>> = Vec::new();
            for a in list.iter() {
                match a {
                    mailparse::MailAddr::Single(s) => out.push(Some(s.addr.clone())),
                    mailparse::MailAddr::Group(_) => out.push(None),
                }
            }
            Ok(out)
        },
    }
}

} // verus!

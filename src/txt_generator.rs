//! Building the TXT record that a user publishes to prove control of a domain.

use vstd::prelude::*;

verus! {

/// The code points with the Unicode `White_Space` property, which is what
/// `str::trim` strips.
pub open spec fn is_space(c: char) -> bool {
    let n = c as u32;
    (9 <= n && n <= 13) || n == 32 || n == 0x85 || n == 0xa0 || n == 0x1680 || (0x2000 <= n
        && n <= 0x200a) || n == 0x2028 || n == 0x2029 || n == 0x202f || n == 0x205f || n == 0x3000
}

/// A text is blank when trimming it leaves nothing: every character is white space.
pub open spec fn is_blank(s: Seq<char>) -> bool {
    forall|i: int| 0 <= i < s.len() ==> is_space(#[trigger] s[i])
}

/// The content of a TXT record: `attribute=value`.
pub open spec fn record_text(attribute: Seq<char>, value: Seq<char>) -> Seq<char> {
    attribute + "="@ + value
}

/// A domain with each label separator turned into an underscore.
pub open spec fn underscored(domain: Seq<char>) -> Seq<char> {
    domain.map_values(|c: char| if c == '.' { '_' } else { c })
}

/// The attribute name of the verification record of a domain:
/// `example.com` gives `example_com_verification`.
pub open spec fn attribute_for(domain: Seq<char>) -> Seq<char> {
    underscored(domain) + "_verification"@
}

/// The instruction shown for a newly created record.
pub open spec fn create_action(domain: Seq<char>, record: Seq<char>) -> Seq<char> {
    "Create a TXT record for the domain "@ + domain + " with the content "@ + record
}

/// The instruction shown for a record that was issued earlier and is still pending.
pub open spec fn reuse_action(domain: Seq<char>, record: Seq<char>) -> Seq<char> {
    "Use existing TXT record for the domain "@ + domain + " with the content "@ + record
}

/// Whether `c` is white space in the sense of `is_space`.
pub fn is_space_char(c: char) -> (r: bool)
    ensures
        r == is_space(c),
{
    let n = c as u32;
    (9 <= n && n <= 13) || n == 32 || n == 0x85 || n == 0xa0 || n == 0x1680 || (0x2000 <= n
        && n <= 0x200a) || n == 0x2028 || n == 0x2029 || n == 0x202f || n == 0x205f || n == 0x3000
}

/// Whether `s` is empty once trimmed.
pub fn is_blank_text(s: &str) -> (r: bool)
    ensures
        r == is_blank(s@),
{
    let n = s.unicode_len();
    let mut i: usize = 0;
    while i < n
        invariant
            n == s@.len(),
            i <= n,
            forall|j: int| 0 <= j < i ==> is_space(#[trigger] s@[j]),
        decreases n - i,
    {
        if !is_space_char(s.get_char(i)) {
            return false;
        }
        i += 1;
    }
    true
}

/// The attribute name under which the challenge for `domain` is published.
pub fn verification_attribute(domain: &str) -> (r: String)
    ensures
        r@ == attribute_for(domain@),
{
    let n = domain.unicode_len();
    let mut out = String::new();
    let mut i: usize = 0;
    while i < n
        invariant
            n == domain@.len(),
            i <= n,
            out@ == underscored(domain@.subrange(0, i as int)),
        decreases n - i,
    {
        let c = domain.get_char(i);
        if c == '.' {
            out.append("_");
        } else {
            out.append(domain.substring_char(i, i + 1));
        }
        proof {
            reveal_strlit("_");
            assert(underscored(domain@.subrange(0, i + 1)) =~= underscored(
                domain@.subrange(0, i as int),
            ).push(if c == '.' { '_' } else { c }));
        }
        i += 1;
    }
    proof {
        assert(domain@.subrange(0, n as int) =~= domain@);
    }
    out.append("_verification");
    out
}


/// A character of the base62 alphabet, `0-9A-Za-z`.
pub open spec fn is_base62(c: char) -> bool {
    let n = c as u32;
    (48 <= n && n <= 57) || (65 <= n && n <= 90) || (97 <= n && n <= 122)
}

/// The text form of a KSUID: 27 base62 characters.
pub open spec fn ksuid_text(s: Seq<char>) -> bool {
    s.len() == 27 && forall|i: int| 0 <= i < s.len() ==> is_base62(#[trigger] s[i])
}

/// A KSUID, the 20-byte identifier of the `ksuid` crate: a timestamp and a
/// random payload.
#[verifier::external_type_specification]
#[verifier::external_body]
pub struct ExKsuid(ksuid::Ksuid);

/// Relies on `Ksuid::generate`, which pairs the current time with a random
/// payload; nothing is known of the value it returns.
pub assume_specification[ ksuid::Ksuid::generate ]() -> ksuid::Ksuid;

/// Relies on `Ksuid::to_base62`, which encodes the 20 bytes into exactly 27
/// characters of the alphabet `0-9A-Za-z`.
pub assume_specification[ ksuid::Ksuid::to_base62 ](k: &ksuid::Ksuid) -> (r: String)
    ensures
        ksuid_text(r@),
;

/// A fresh token: a new KSUID in text form. A token is never blank.
pub fn generate_ksuid() -> (r: String)
    ensures
        ksuid_text(r@),
        !is_blank(r@),
{
    let r = ksuid::Ksuid::generate().to_base62();
    assert(!is_space(r@[0]));
    r
}

/// What a TXT record is generated from.
pub struct TxtRecordGenerator {
    /// The domain for which the record is generated.
    pub domain: String,
    /// The attribute name of the record.
    pub record_attribute: String,
    /// The value given to the attribute.
    pub record_attribute_value: String,
}

/// What a user is asked to publish in DNS.
pub struct DnsRecordInstruction {
    /// The domain under which the record is to be created.
    pub domain: String,
    /// The content of the record.
    pub record: String,
    /// A readable description of what to do.
    pub action: String,
}

/// A request for a challenge.
pub struct UserRequest {
    /// The user asking.
    pub user_id: String,
    /// The domain the user claims.
    pub domain: String,
}

/// The answer to a challenge request.
pub struct TxtRecordResponse {
    /// The user who asked.
    pub user_id: String,
    /// The record to publish.
    pub dns_record: DnsRecordInstruction,
}

impl TxtRecordGenerator {
    /// Whether every field holds something besides white space.
    pub open spec fn is_valid(&self) -> bool {
        !is_blank(self.domain@) && !is_blank(self.record_attribute@) && !is_blank(
            self.record_attribute_value@,
        )
    }

    /// The message for the first blank field.
    pub open spec fn validation_message(&self) -> Seq<char> {
        if is_blank(self.domain@) {
            "Domain is empty"@
        } else if is_blank(self.record_attribute@) {
            "Record attribute is empty"@
        } else {
            "Record attribute value is empty"@
        }
    }

    pub fn new(domain: String, record_attribute: String, record_attribute_value: String) -> (r:
        Self)
        ensures
            r.domain == domain,
            r.record_attribute == record_attribute,
            r.record_attribute_value == record_attribute_value,
    {
        TxtRecordGenerator { domain, record_attribute, record_attribute_value }
    }

    /// Checks the fields in order and names the first one that is blank.
    pub fn validate(&self) -> (r: Result<(), String>)
        ensures
            r is Ok <==> self.is_valid(),
            r matches Err(m) ==> m@ == self.validation_message(),
    {
        if is_blank_text(self.domain.as_str()) {
            return Err("Domain is empty".to_string());
        }
        if is_blank_text(self.record_attribute.as_str()) {
            return Err("Record attribute is empty".to_string());
        }
        if is_blank_text(self.record_attribute_value.as_str()) {
            return Err("Record attribute value is empty".to_string());
        }
        Ok(())
    }
}

/// Joins three texts.
fn join3(a: &str, b: &str, c: &str) -> (r: String)
    ensures
        r@ == a@ + b@ + c@,
{
    let mut r = String::from_str(a);
    r.append(b);
    r.append(c);
    r
}

/// The record `attribute=value` and the instruction to create it, when the
/// configuration is valid; the first validation message otherwise. The
/// configuration is left as it was.
pub fn generate_txt_record_from_config(config: &mut TxtRecordGenerator) -> (r: Result<
    DnsRecordInstruction,
    String,
>)
    ensures
        *final(config) == *old(config),
        r is Ok <==> old(config).is_valid(),
        r matches Ok(ins) ==> {
            &&& ins.domain@ == old(config).domain@
            &&& ins.record@ == record_text(
                old(config).record_attribute@,
                old(config).record_attribute_value@,
            )
            &&& ins.action@ == create_action(old(config).domain@, ins.record@)
        },
        r matches Err(m) ==> m@ == old(config).validation_message(),
{
    match config.validate() {
        Err(m) => Err(m),
        Ok(()) => {
            let record = join3(
                config.record_attribute.as_str(),
                "=",
                config.record_attribute_value.as_str(),
            );
            let head = join3(
                "Create a TXT record for the domain ",
                config.domain.as_str(),
                " with the content ",
            );
            let action = join3(head.as_str(), record.as_str(), "");
            proof {
                reveal_strlit("");
                assert(action@ =~= create_action(config.domain@, record@));
            }
            Ok(DnsRecordInstruction { domain: config.domain.clone(), record, action })
        },
    }
}

} // verus!

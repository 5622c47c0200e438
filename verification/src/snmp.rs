//! The SNMP query task's pure parts: the OID text, the rendering of a
//! returned value and its type name, the SNMPv3 security settings, and the
//! metric of a query.
use vstd::prelude::*;
use vstd::utf8::{decode_utf8, valid_utf8};

use crate::config::{hex_digit, hex_lower};
use crate::text::{
    chars_of, decimal, decimal_string, parse_unsigned, parse_unsigned_exec, signed_decimal,
    signed_decimal_string, string_from_chars,
};

verus! {

broadcast use vstd::string::group_string_axioms;

/// Lowercase hexadecimal of bytes, two digits each, separated by colons.
pub open spec fn colon_hex(b: Seq<u8>) -> Seq<char>
    decreases b.len(),
{
    if b.len() == 0 {
        Seq::empty()
    } else if b.len() == 1 {
        hex_lower(b)
    } else {
        colon_hex(b.drop_last()) + seq![':'] + hex_lower(seq![b.last()])
    }
}

fn hex_digit_char(v: u8) -> (c: char)
    requires
        v < 16,
    ensures
        c == hex_digit(v),
{
    if v < 10 {
        (48u8 + v) as char
    } else {
        (97u8 + v - 10) as char
    }
}

/// Bytes as colon separated hexadecimal pairs, as in `aa:bb:cc`.
pub fn bytes_to_hex(bytes: &[u8]) -> (s: String)
    ensures
        s@ == colon_hex(bytes@),
{
    let mut out: Vec<char> = Vec::new();
    let mut i: usize = 0;
    while i < bytes.len()
        invariant
            0 <= i <= bytes@.len(),
            out@ == colon_hex(bytes@.take(i as int)),
        decreases bytes@.len() - i,
    {
        let b = bytes[i];
        let ghost pre = bytes@.take(i as int);
        let ghost next = bytes@.take(i + 1);
        assert(next.drop_last() =~= pre);
        assert(next.last() == b);
        assert(seq![b].drop_last() =~= Seq::<u8>::empty());
        assert(seq![b].last() == b);
        assert(hex_lower(Seq::<u8>::empty()) =~= Seq::<char>::empty());
        assert(hex_lower(seq![b]) =~= seq![hex_digit(b / 16), hex_digit(b % 16)]);
        if i > 0 {
            out.push(':');
        } else {
            assert(next =~= seq![b]);
        }
        out.push(hex_digit_char(b / 16));
        out.push(hex_digit_char(b % 16));
        i = i + 1;
    }
    assert(bytes@.take(bytes@.len() as int) =~= bytes@);
    string_from_chars(&out)
}

/// Uptime in hundredths of a second as `Dd Hh Mm Ss (T ticks)`.
pub open spec fn timeticks_text(t: u32) -> Seq<char> {
    let seconds = t as nat / 100;
    decimal(seconds / 86400) + "d "@ + decimal((seconds % 86400) / 3600) + "h "@ + decimal(
        (seconds % 3600) / 60,
    ) + "m "@ + decimal(seconds % 60) + "s ("@ + decimal(t as nat) + " ticks)"@
}

/// Renders a timeticks value.
pub fn timeticks_string(t: u32) -> (s: String)
    ensures
        s@ == timeticks_text(t),
{
    let seconds = t as u64 / 100;
    let mut s = decimal_string(seconds / 86400);
    s.append("d ");
    s.append(decimal_string((seconds % 86400) / 3600).as_str());
    s.append("h ");
    s.append(decimal_string((seconds % 3600) / 60).as_str());
    s.append("m ");
    s.append(decimal_string(seconds % 60).as_str());
    s.append("s (");
    s.append(decimal_string(t as u64).as_str());
    s.append(" ticks)");
    s
}

/// The pieces of a text between dots.
pub open spec fn split_dots(s: Seq<char>) -> Seq<Seq<char>>
    decreases s.len(),
{
    if s.len() == 0 {
        seq![Seq::empty()]
    } else {
        let p = split_dots(s.drop_last());
        if s.last() == '.' {
            p.push(Seq::empty())
        } else {
            p.update(p.len() - 1, p.last().push(s.last()))
        }
    }
}

/// Numbers of pieces, or the first piece that is no `u64`.
pub open spec fn parse_pieces(pieces: Seq<Seq<char>>) -> Result<Seq<nat>, Seq<char>>
    decreases pieces.len(),
{
    if pieces.len() == 0 {
        Ok(Seq::empty())
    } else {
        match parse_pieces(pieces.drop_last()) {
            Err(e) => Err(e),
            Ok(v) => match parse_unsigned(pieces.last(), 10, u64::MAX as nat) {
                Some(x) => Ok(v.push(x)),
                None => Err(pieces.last()),
            },
        }
    }
}

/// An OID text without its optional leading dot.
pub open spec fn oid_body(s: Seq<char>) -> Seq<char> {
    if s.len() > 0 && s[0] == '.' {
        s.drop_first()
    } else {
        s
    }
}

/// The components of an OID text, or the message for the first bad one.
pub open spec fn oid_components(s: Seq<char>) -> Result<Seq<nat>, Seq<char>> {
    match parse_pieces(split_dots(oid_body(s))) {
        Ok(v) => Ok(v),
        Err(piece) => Err("Invalid OID component: "@ + piece),
    }
}

fn split_dots_exec(s: &[char]) -> (r: Vec<Vec<char>>)
    ensures
        r@.len() == split_dots(s@).len(),
        forall|i: int| 0 <= i < r@.len() ==> (#[trigger] r@[i])@ == split_dots(s@)[i],
{
    let mut pieces: Vec<Vec<char>> = Vec::new();
    pieces.push(Vec::new());
    let mut i: usize = 0;
    while i < s.len()
        invariant
            0 <= i <= s@.len(),
            pieces@.len() >= 1,
            pieces@.len() == split_dots(s@.take(i as int)).len(),
            forall|j: int| 0 <= j < pieces@.len() ==> (#[trigger] pieces@[j])@ == split_dots(
                s@.take(i as int),
            )[j],
        decreases s@.len() - i,
    {
        let ghost pre = s@.take(i as int);
        let ghost next = s@.take(i + 1);
        assert(next.drop_last() =~= pre);
        assert(next.last() == s@[i as int]);
        if s[i] == '.' {
            pieces.push(Vec::new());
        } else {
            let last = pieces.len() - 1;
            let mut piece = pieces.pop().unwrap();
            piece.push(s[i]);
            pieces.push(piece);
            proof {
                assert(pieces@.len() == split_dots(next).len());
                assert forall|j: int| 0 <= j < pieces@.len() implies (#[trigger] pieces@[j])@
                    == split_dots(next)[j] by {
                    if j == last {
                        assert(pieces@[j]@ =~= split_dots(next)[j]);
                    }
                }
            }
        }
        i = i + 1;
    }
    assert(s@.take(s@.len() as int) =~= s@);
    pieces
}

/// Reads the components of an OID such as `1.3.6.1.2.1.1.3.0`; a leading
/// dot is allowed.
pub fn parse_oid(oid: &str) -> (r: Result<Vec<u64>, String>)
    ensures
        match oid_components(oid@) {
            Ok(v) => (r matches Ok(c) && c@.len() == v.len() && forall|i: int|
                0 <= i < v.len() ==> c@[i] as nat == #[trigger] v[i]),
            Err(m) => (r matches Err(e) && e@ == m),
        },
{
    let all = chars_of(oid);
    let body: Vec<char> = if all.len() > 0 && all[0] == '.' {
        crate::text::slice_range(&all, 1, all.len())
    } else {
        all
    };
    assert(body@ =~= oid_body(oid@));
    let pieces = split_dots_exec(&body);
    let ghost ps = split_dots(oid_body(oid@));
    let mut values: Vec<u64> = Vec::new();
    let mut i: usize = 0;
    while i < pieces.len()
        invariant
            0 <= i <= pieces@.len(),
            ps == split_dots(oid_body(oid@)),
            pieces@.len() == ps.len(),
            forall|j: int| 0 <= j < pieces@.len() ==> (#[trigger] pieces@[j])@ == ps[j],
            parse_pieces(ps.take(i as int)) matches Ok(v) && values@.len() == v.len() && forall|
                j: int,
            | 0 <= j < v.len() ==> values@[j] as nat == #[trigger] v[j],
        decreases pieces@.len() - i,
    {
        let ghost pre = ps.take(i as int);
        let ghost next = ps.take(i + 1);
        assert(next.drop_last() =~= pre);
        assert(next.last() == ps[i as int]);
        match parse_unsigned_exec(pieces[i].as_slice(), 10, u64::MAX) {
            Some(x) => {
                values.push(x);
            },
            None => {
                proof {
                    assert(parse_pieces(next) == Err::<Seq<nat>, Seq<char>>(ps[i as int]));
                    lemma_parse_pieces_stops(ps, (i + 1) as nat);
                }
                let mut e = String::from_str("Invalid OID component: ");
                e.append(string_from_chars(pieces[i].as_slice()).as_str());
                return Err(e);
            },
        }
        i = i + 1;
    }
    assert(ps.take(ps.len() as int) =~= ps);
    Ok(values)
}

proof fn lemma_parse_pieces_stops(ps: Seq<Seq<char>>, k: nat)
    requires
        1 <= k <= ps.len(),
        parse_pieces(ps.take(k as int)) is Err,
    ensures
        parse_pieces(ps) == parse_pieces(ps.take(k as int)),
    decreases ps.len() - k,
{
    if k < ps.len() {
        let next = ps.take(k + 1 as int);
        assert(next.drop_last() =~= ps.take(k as int));
        lemma_parse_pieces_stops(ps, k + 1);
    } else {
        assert(ps.take(k as int) =~= ps);
    }
}

/// The complex value kinds that are shown by their debug form.
#[derive(Debug, Clone, Copy, PartialEq, Eq, Structural)]
pub enum ComplexKind {
    Sequence,
    SetOf,
    Constructed,
    GetRequest,
    GetNextRequest,
    GetBulkRequest,
    SetRequest,
    Response,
    InformRequest,
    Trap,
    Report,
}

/// A value returned by an SNMP agent.
#[derive(Debug, Clone, PartialEq, Eq)]
pub enum SnmpValue {
    Boolean(bool),
    Null,
    Integer(i64),
    OctetString(Vec<u8>),
    /// An OID, by its dotted text.
    ObjectIdentifier(String),
    IpAddress(u8, u8, u8, u8),
    Counter32(u32),
    Unsigned32(u32),
    Timeticks(u32),
    Opaque(Vec<u8>),
    Counter64(u64),
    EndOfMibView,
    NoSuchObject,
    NoSuchInstance,
    /// A complex value, by its kind and debug text.
    Complex(ComplexKind, String),
}

/// The name of a value's type.
pub open spec fn value_type_text(v: SnmpValue) -> Seq<char> {
    match v {
        SnmpValue::Boolean(_) => "Boolean"@,
        SnmpValue::Null => "Null"@,
        SnmpValue::Integer(_) => "Integer"@,
        SnmpValue::OctetString(_) => "OctetString"@,
        SnmpValue::ObjectIdentifier(_) => "ObjectIdentifier"@,
        SnmpValue::IpAddress(..) => "IpAddress"@,
        SnmpValue::Counter32(_) => "Counter32"@,
        SnmpValue::Unsigned32(_) => "Unsigned32"@,
        SnmpValue::Timeticks(_) => "Timeticks"@,
        SnmpValue::Opaque(_) => "Opaque"@,
        SnmpValue::Counter64(_) => "Counter64"@,
        SnmpValue::EndOfMibView => "EndOfMibView"@,
        SnmpValue::NoSuchObject => "NoSuchObject"@,
        SnmpValue::NoSuchInstance => "NoSuchInstance"@,
        SnmpValue::Complex(k, _) => match k {
            ComplexKind::Sequence => "Sequence"@,
            ComplexKind::SetOf => "Set"@,
            ComplexKind::Constructed => "Constructed"@,
            ComplexKind::GetRequest => "GetRequest"@,
            ComplexKind::GetNextRequest => "GetNextRequest"@,
            ComplexKind::GetBulkRequest => "GetBulkRequest"@,
            ComplexKind::SetRequest => "SetRequest"@,
            ComplexKind::Response => "Response"@,
            ComplexKind::InformRequest => "InformRequest"@,
            ComplexKind::Trap => "Trap"@,
            ComplexKind::Report => "Report"@,
        },
    }
}

/// The name of a value's type.
pub fn value_type_name(v: &SnmpValue) -> (s: String)
    ensures
        s@ == value_type_text(*v),
{
    let t = match v {
        SnmpValue::Boolean(_) => "Boolean",
        SnmpValue::Null => "Null",
        SnmpValue::Integer(_) => "Integer",
        SnmpValue::OctetString(_) => "OctetString",
        SnmpValue::ObjectIdentifier(_) => "ObjectIdentifier",
        SnmpValue::IpAddress(..) => "IpAddress",
        SnmpValue::Counter32(_) => "Counter32",
        SnmpValue::Unsigned32(_) => "Unsigned32",
        SnmpValue::Timeticks(_) => "Timeticks",
        SnmpValue::Opaque(_) => "Opaque",
        SnmpValue::Counter64(_) => "Counter64",
        SnmpValue::EndOfMibView => "EndOfMibView",
        SnmpValue::NoSuchObject => "NoSuchObject",
        SnmpValue::NoSuchInstance => "NoSuchInstance",
        SnmpValue::Complex(k, _) => match k {
            ComplexKind::Sequence => "Sequence",
            ComplexKind::SetOf => "Set",
            ComplexKind::Constructed => "Constructed",
            ComplexKind::GetRequest => "GetRequest",
            ComplexKind::GetNextRequest => "GetNextRequest",
            ComplexKind::GetBulkRequest => "GetBulkRequest",
            ComplexKind::SetRequest => "SetRequest",
            ComplexKind::Response => "Response",
            ComplexKind::InformRequest => "InformRequest",
            ComplexKind::Trap => "Trap",
            ComplexKind::Report => "Report",
        },
    };
    String::from_str(t)
}

/// `std::str::from_utf8`. Claimed: it succeeds exactly on valid UTF-8 and
/// then gives the decoded text.
#[verifier::external_body]
fn utf8_text(bytes: &[u8]) -> (r: Option<&str>)
    ensures
        (r is Some) == valid_utf8(bytes@),
        r matches Some(s) ==> s@ == decode_utf8(bytes@),
{
    std::str::from_utf8(bytes).ok()
}

/// A control character (Unicode `Cc`), as `char::is_control` tests it.
pub open spec fn is_control(c: char) -> bool {
    (c as u32) <= 0x1F || (0x7F <= (c as u32) && (c as u32) <= 0x9F)
}

/// Text that is shown as it is: no control characters but newline and tab.
pub open spec fn printable(t: Seq<char>) -> bool {
    forall|i: int| 0 <= i < t.len() ==> !is_control(#[trigger] t[i]) || t[i] == '\n' || t[i] == '\t'
}

/// An octet string as shown: its text when it is UTF-8 without control
/// characters (but newline and tab), else its bytes in hexadecimal.
pub open spec fn octets_text(b: Seq<u8>) -> Seq<char> {
    if valid_utf8(b) && printable(decode_utf8(b)) {
        decode_utf8(b)
    } else {
        colon_hex(b)
    }
}

fn printable_exec(t: &[char]) -> (r: bool)
    ensures
        r == printable(t@),
{
    let mut i: usize = 0;
    while i < t.len()
        invariant
            0 <= i <= t@.len(),
            forall|j: int| 0 <= j < i ==> !is_control(#[trigger] t@[j]) || t@[j] == '\n' || t@[j] == '\t',
        decreases t@.len() - i,
    {
        let c = t[i];
        let u = c as u32;
        if (u <= 0x1F || (0x7F <= u && u <= 0x9F)) && c != '\n' && c != '\t' {
            return false;
        }
        i = i + 1;
    }
    true
}

fn octets_string(b: &[u8]) -> (s: String)
    ensures
        s@ == octets_text(b@),
{
    match utf8_text(b) {
        Some(t) => {
            let chars = chars_of(t);
            if printable_exec(&chars) {
                String::from_str(t)
            } else {
                bytes_to_hex(b)
            }
        },
        None => bytes_to_hex(b),
    }
}

/// A value as shown in the metric.
pub open spec fn value_text(v: SnmpValue) -> Seq<char> {
    match v {
        SnmpValue::Boolean(b) => if b {
            "true"@
        } else {
            "false"@
        },
        SnmpValue::Null => "null"@,
        SnmpValue::Integer(i) => signed_decimal(i as int),
        SnmpValue::OctetString(b) => octets_text(b@),
        SnmpValue::ObjectIdentifier(o) => o@,
        SnmpValue::IpAddress(a, b, c, d) => decimal(a as nat) + "."@ + decimal(b as nat) + "."@
            + decimal(c as nat) + "."@ + decimal(d as nat),
        SnmpValue::Counter32(c) => decimal(c as nat),
        SnmpValue::Unsigned32(u) => decimal(u as nat),
        SnmpValue::Timeticks(t) => timeticks_text(t),
        SnmpValue::Opaque(b) => colon_hex(b@),
        SnmpValue::Counter64(c) => decimal(c as nat),
        SnmpValue::EndOfMibView => "endOfMibView"@,
        SnmpValue::NoSuchObject => "noSuchObject"@,
        SnmpValue::NoSuchInstance => "noSuchInstance"@,
        SnmpValue::Complex(_, t) => t@,
    }
}

/// Counters are shown as the plain decimal of their number: a `Counter32`
/// reads as the `Unsigned32` and the `Counter64` of the same number.
pub proof fn lemma_counters_show_their_number(c: u32, d: u64)
    ensures
        value_text(SnmpValue::Counter32(c)) == decimal(c as nat),
        value_text(SnmpValue::Counter32(c)) == value_text(SnmpValue::Unsigned32(c)),
        value_text(SnmpValue::Counter32(c)) == value_text(SnmpValue::Counter64(c as u64)),
        value_text(SnmpValue::Counter64(d)) == decimal(d as nat),
{
}

/// Renders a value for the metric.
pub fn value_to_string(v: &SnmpValue) -> (s: String)
    ensures
        s@ == value_text(*v),
{
    match v {
        SnmpValue::Boolean(b) => if *b {
            String::from_str("true")
        } else {
            String::from_str("false")
        },
        SnmpValue::Null => String::from_str("null"),
        SnmpValue::Integer(i) => signed_decimal_string(*i),
        SnmpValue::OctetString(b) => octets_string(b.as_slice()),
        SnmpValue::ObjectIdentifier(o) => o.clone(),
        SnmpValue::IpAddress(a, b, c, d) => {
            let mut s = decimal_string(*a as u64);
            s.append(".");
            s.append(decimal_string(*b as u64).as_str());
            s.append(".");
            s.append(decimal_string(*c as u64).as_str());
            s.append(".");
            s.append(decimal_string(*d as u64).as_str());
            s
        },
        SnmpValue::Counter32(c) => decimal_string(*c as u64),
        SnmpValue::Unsigned32(u) => decimal_string(*u as u64),
        SnmpValue::Timeticks(t) => timeticks_string(*t),
        SnmpValue::Opaque(b) => bytes_to_hex(b.as_slice()),
        SnmpValue::Counter64(c) => decimal_string(*c),
        SnmpValue::EndOfMibView => String::from_str("endOfMibView"),
        SnmpValue::NoSuchObject => String::from_str("noSuchObject"),
        SnmpValue::NoSuchInstance => String::from_str("noSuchInstance"),
        SnmpValue::Complex(_, t) => t.clone(),
    }
}

/// The value and type name of a response's first variable binding.
pub fn extract_value(first: Option<SnmpValue>) -> (r: Result<(String, String), String>)
    ensures
        match first {
            Some(v) => (r matches Ok(p) && p.0@ == value_text(v) && p.1@ == value_type_text(v)),
            None => (r matches Err(e) && e@ == "No value returned in SNMP response"@),
        },
{
    match first {
        Some(v) => Ok((value_to_string(&v), value_type_name(&v))),
        None => Err(String::from_str("No value returned in SNMP response")),
    }
}

/// The protocol versions.
#[derive(Debug, Clone, Copy, PartialEq, Eq, Structural)]
pub enum SnmpVersion {
    V1,
    V2c,
    V3,
}

/// The version's short name.
pub fn version_str(v: SnmpVersion) -> (s: String)
    ensures
        s@ == match v {
            SnmpVersion::V1 => "v1"@,
            SnmpVersion::V2c => "v2c"@,
            SnmpVersion::V3 => "v3"@,
        },
{
    match v {
        SnmpVersion::V1 => String::from_str("v1"),
        SnmpVersion::V2c => String::from_str("v2c"),
        SnmpVersion::V3 => String::from_str("v3"),
    }
}

/// SNMPv3 security levels.
#[derive(Debug, Clone, Copy, PartialEq, Eq, Structural)]
pub enum SnmpSecurityLevel {
    NoAuthNoPriv,
    AuthNoPriv,
}

/// SNMPv3 authentication protocols.
#[derive(Debug, Clone, Copy, PartialEq, Eq, Structural)]
pub enum SnmpAuthProtocol {
    /// No protocol chosen.
    Unspecified,
    Md5,
    Sha1,
    Sha224,
    Sha256,
    Sha384,
    Sha512,
}

/// The security of an SNMPv3 session.
#[derive(Debug, Clone, PartialEq, Eq)]
pub enum V3Security {
    /// A user without authentication.
    NoAuth { username: String },
    /// A user authenticated with a password by a protocol.
    Auth { username: String, password: String, protocol: SnmpAuthProtocol },
}

/// Checks the SNMPv3 settings: a user is required; authentication needs a
/// password and a protocol.
pub fn v3_security(
    username: Option<String>,
    level: SnmpSecurityLevel,
    auth_password: Option<String>,
    auth_protocol: SnmpAuthProtocol,
) -> (r: Result<V3Security, String>)
    ensures
        username is None ==> (r matches Err(e) && e@ == "SNMPv3 requires username"@),
        username matches Some(u) ==> match level {
            SnmpSecurityLevel::NoAuthNoPriv => r == Ok::<V3Security, String>(
                V3Security::NoAuth { username: u },
            ),
            SnmpSecurityLevel::AuthNoPriv => match auth_password {
                None => (r matches Err(e) && e@ == "authNoPriv requires auth_password"@),
                Some(p) => if auth_protocol == SnmpAuthProtocol::Unspecified {
                    (r matches Err(e) && e@ == "authNoPriv requires an authentication protocol"@)
                } else {
                    r == Ok::<V3Security, String>(
                        V3Security::Auth { username: u, password: p, protocol: auth_protocol },
                    )
                },
            },
        },
{
    let u = match username {
        Some(u) => u,
        None => return Err(String::from_str("SNMPv3 requires username")),
    };
    match level {
        SnmpSecurityLevel::NoAuthNoPriv => Ok(V3Security::NoAuth { username: u }),
        SnmpSecurityLevel::AuthNoPriv => {
            let p = match auth_password {
                Some(p) => p,
                None => return Err(String::from_str("authNoPriv requires auth_password")),
            };
            if auth_protocol == SnmpAuthProtocol::Unspecified {
                Err(String::from_str("authNoPriv requires an authentication protocol"))
            } else {
                Ok(V3Security::Auth { username: u, password: p, protocol: auth_protocol })
            }
        },
    }
}

/// The metric of an SNMP query.
#[derive(Debug, Clone, PartialEq, Eq)]
pub struct SnmpMetric {
    /// Response time in nanoseconds.
    pub response_time_ns: Option<u64>,
    pub success: bool,
    pub value: Option<String>,
    pub value_type: Option<String>,
    pub oid_queried: String,
    pub error: Option<String>,
    pub target_id: Option<String>,
}

/// How an SNMP query ended.
#[derive(Debug, Clone, PartialEq, Eq)]
pub enum SnmpOutcome {
    /// The value and its type name, after this many nanoseconds.
    Answered { value: String, value_type: String, elapsed_ns: u64 },
    /// The query failed with this message.
    Failed(String),
    /// No answer within the timeout, in seconds.
    TimedOut(u32),
}

/// The metric of a query's outcome.
pub fn snmp_metric(oid: String, outcome: SnmpOutcome, target_id: Option<String>) -> (m: SnmpMetric)
    ensures
        m.oid_queried == oid,
        m.target_id == target_id,
        match outcome {
            SnmpOutcome::Answered { value, value_type, elapsed_ns } => m.response_time_ns == Some(
                elapsed_ns,
            ) && m.success && m.value == Some(value) && m.value_type == Some(value_type)
                && m.error is None,
            SnmpOutcome::Failed(e) => m.response_time_ns is None && !m.success && m.value is None
                && m.value_type is None && m.error == Some(e),
            SnmpOutcome::TimedOut(s) => m.response_time_ns is None && !m.success && m.value is None
                && m.value_type is None && (m.error matches Some(e) && e@ == "Query timed out after "@
                + decimal(s as nat) + " seconds"@),
        },
{
    match outcome {
        SnmpOutcome::Answered { value, value_type, elapsed_ns } => SnmpMetric {
            response_time_ns: Some(elapsed_ns),
            success: true,
            value: Some(value),
            value_type: Some(value_type),
            oid_queried: oid,
            error: None,
            target_id,
        },
        SnmpOutcome::Failed(e) => SnmpMetric {
            response_time_ns: None,
            success: false,
            value: None,
            value_type: None,
            oid_queried: oid,
            error: Some(e),
            target_id,
        },
        SnmpOutcome::TimedOut(s) => {
            let mut e = String::from_str("Query timed out after ");
            e.append(decimal_string(s as u64).as_str());
            e.append(" seconds");
            SnmpMetric {
                response_time_ns: None,
                success: false,
                value: None,
                value_type: None,
                oid_queried: oid,
                error: Some(e),
                target_id,
            }
        },
    }
}

} // verus!

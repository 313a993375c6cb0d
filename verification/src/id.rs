use vstd::prelude::*;
use vstd::std_specs::cmp::PartialEqSpecImpl;

verus! {

/// Maximum length of an identifier, in characters (all of them ASCII).
pub const MAX_IDENTIFIER_LENGTH: usize = 128;

/// `c` is a lowercase ASCII letter.
pub open spec fn is_id_lowercase(c: char) -> bool {
    'a' <= c && c <= 'z'
}

/// `c` is an ASCII digit.
pub open spec fn is_id_digit(c: char) -> bool {
    '0' <= c && c <= '9'
}

/// `c` is one of the identifier separators `-`, `.` and `/`.
pub open spec fn is_id_separator(c: char) -> bool {
    c == '-' || c == '.' || c == '/'
}

/// `c` may occur in an identifier.
pub open spec fn is_id_char(c: char) -> bool {
    is_id_lowercase(c) || is_id_digit(c) || is_id_separator(c)
}

/// Positions `i` and `i + 1` of `s` are both separators.
pub open spec fn separator_pair_at(s: Seq<char>, i: int) -> bool {
    is_id_separator(s[i]) && is_id_separator(s[i + 1])
}

/// The canonical identifier grammar: 1 to 128 characters drawn from lowercase
/// ASCII letters, digits, `-`, `.` and `/`; no two separators in a row; the
/// first character a letter (or a digit, where `allow_digit_start` holds); the
/// last character a letter or a digit.
pub open spec fn is_valid_identifier(s: Seq<char>, allow_digit_start: bool) -> bool {
    &&& 0 < s.len() <= MAX_IDENTIFIER_LENGTH
    &&& is_id_lowercase(s[0]) || (allow_digit_start && is_id_digit(s[0]))
    &&& is_id_lowercase(s.last()) || is_id_digit(s.last())
    &&& forall|i: int| 0 <= i < s.len() ==> is_id_char(#[trigger] s[i])
    &&& forall|i: int| 0 <= i < s.len() - 1 ==> !#[trigger] separator_pair_at(s, i)
}

/// Only invocation identifiers may start with a digit: admitting a digit start
/// accepts every identifier accepted without it, and otherwise only identifiers
/// that start with a digit; for text that does not start with a digit the two
/// rules agree. Every identifier ends with a letter or a digit.
pub proof fn law_only_invocation_ids_start_with_a_digit(s: Seq<char>)
    ensures
        is_valid_identifier(s, false) ==> is_valid_identifier(s, true) && is_id_lowercase(s[0]),
        is_valid_identifier(s, true) && !is_valid_identifier(s, false) ==> is_id_digit(s[0]),
        is_valid_identifier(s, true) ==> is_id_lowercase(s.last()) || is_id_digit(s.last()),
        s.len() > 0 && !is_id_digit(s[0]) ==> is_valid_identifier(s, false) == is_valid_identifier(
            s,
            true,
        ),
{
}

/// An accepted identifier is made only of lowercase ASCII letters `a`-`z`,
/// ASCII digits `0`-`9` and the separators `-`, `.` and `/`; it starts with a
/// lowercase letter (or, where a digit start is allowed, a digit) and ends
/// with a lowercase letter or a digit; it has 1 to 128 characters and no two
/// separators stand next to each other.
pub proof fn law_identifier_characters(s: Seq<char>, allow_digit_start: bool)
    requires
        is_valid_identifier(s, allow_digit_start),
    ensures
        1 <= s.len() <= 128,
        forall|i: int|
            0 <= i < s.len() - 1 ==> !((#[trigger] s[i] == '-' || s[i] == '.' || s[i] == '/') && (s[i
                + 1] == '-' || s[i + 1] == '.' || s[i + 1] == '/')),
        forall|i: int|
            0 <= i < s.len() ==> ('a' <= #[trigger] s[i] && s[i] <= 'z') || ('0' <= s[i] && s[i]
                <= '9') || s[i] == '-' || s[i] == '.' || s[i] == '/',
        ('a' <= s[0] && s[0] <= 'z') || (allow_digit_start && '0' <= s[0] && s[0] <= '9'),
        ('a' <= s[s.len() - 1] && s[s.len() - 1] <= 'z') || ('0' <= s[s.len() - 1] && s[s.len()
            - 1] <= '9'),
{
    assert forall|i: int| 0 <= i < s.len() implies ('a' <= #[trigger] s[i] && s[i] <= 'z') || (
    '0' <= s[i] && s[i] <= '9') || s[i] == '-' || s[i] == '.' || s[i] == '/' by {
        assert(is_id_char(s[i]));
    }
    assert forall|i: int| 0 <= i < s.len() - 1 implies !((#[trigger] s[i] == '-' || s[i] == '.'
        || s[i] == '/') && (s[i + 1] == '-' || s[i + 1] == '.' || s[i + 1] == '/')) by {
        assert(!separator_pair_at(s, i));
    }
}

/// Identifiers are ASCII, so their UTF-8 encoding has one byte per character:
/// the 128-character limit is also a 128-byte limit, and each byte is the
/// character's code.
pub proof fn law_identifiers_are_ascii(s: Seq<char>, allow_digit_start: bool)
    requires
        is_valid_identifier(s, allow_digit_start),
    ensures
        vstd::utf8::is_ascii_chars(s),
        vstd::utf8::encode_utf8(s).len() == s.len() <= MAX_IDENTIFIER_LENGTH,
        forall|i: int| 0 <= i < s.len() ==> #[trigger] vstd::utf8::encode_utf8(s)[i] == s[i] as u8,
{
    assert forall|i: int| 0 <= i < s.len() implies '\0' <= #[trigger] s[i] <= '\u{7f}' by {
        assert(is_id_char(s[i]));
    }
    vstd::utf8::is_ascii_chars_encode_utf8(s);
}

/// Why an SDK identifier was rejected. The rejected value itself is not kept.
#[derive(Clone, Copy, Debug, Eq, PartialEq)]
pub struct IdentifierError {
    kind: &'static str,
}

impl IdentifierError {
    /// The kind of identifier that was rejected, such as `"capability"`.
    pub closed spec fn kind_label(&self) -> Seq<char> {
        self.kind@
    }

    /// The rejection of an identifier of kind `kind`; it holds nothing else.
    pub closed spec fn for_kind(kind: &'static str) -> IdentifierError {
        IdentifierError { kind }
    }

    /// Returns the kind of identifier that was rejected.
    pub fn kind(&self) -> (r: &'static str)
        ensures
            r@ == self.kind_label(),
    {
        self.kind
    }
}

/// Checks `value` against the identifier grammar, reporting `kind` on failure.
pub fn validate_identifier(kind: &'static str, value: &str, allow_digit_start: bool) -> (r: Result<
    (),
    IdentifierError,
>)
    ensures
        r is Ok <==> is_valid_identifier(value@, allow_digit_start),
        r is Ok ==> forall|i: int|
            0 <= i < value@.len() ==> ('a' <= #[trigger] value@[i] && value@[i] <= 'z') || ('0'
                <= value@[i] && value@[i] <= '9') || value@[i] == '-' || value@[i] == '.'
                || value@[i] == '/',
        r matches Err(e) ==> e.kind_label() == kind@ && e == IdentifierError::for_kind(kind),
{
    proof {
        if is_valid_identifier(value@, allow_digit_start) {
            law_identifier_characters(value@, allow_digit_start);
        }
    }
    let mut count: usize = 0;
    let mut previous: char = 'a';
    let mut first: char = 'a';
    for c in it: value.chars()
        invariant
            count == it.index(),
            it.seq() == value@,
            count <= MAX_IDENTIFIER_LENGTH,
            forall|i: int| 0 <= i < count ==> is_id_char(#[trigger] value@[i]),
            forall|i: int| 0 <= i < count - 1 ==> !#[trigger] separator_pair_at(value@, i),
            count > 0 ==> first == value@[0] && previous == value@[count - 1],
    {
        let lower = 'a' <= c && c <= 'z';
        let digit = '0' <= c && c <= '9';
        let separator = c == '-' || c == '.' || c == '/';
        if count == MAX_IDENTIFIER_LENGTH || !(lower || digit || separator) {
            assert(!is_id_char(value@[count as int]) || value@.len() > MAX_IDENTIFIER_LENGTH);
            return Err(IdentifierError { kind });
        }
        if count > 0 && separator && (previous == '-' || previous == '.' || previous == '/') {
            assert(separator_pair_at(value@, count - 1));
            return Err(IdentifierError { kind });
        }
        if count == 0 {
            first = c;
        }
        previous = c;
        count = count + 1;
    }
    let valid_start = count > 0 && (('a' <= first && first <= 'z') || (allow_digit_start && '0'
        <= first && first <= '9'));
    let valid_end = count > 0 && (('a' <= previous && previous <= 'z') || ('0' <= previous
        && previous <= '9'));
    if valid_start && valid_end {
        Ok(())
    } else {
        Err(IdentifierError { kind })
    }
}

/// A validated capability identifier.
#[derive(Debug, Eq, Hash, Ord, PartialOrd)]
pub struct CapabilityId(String);

impl View for CapabilityId {
    type V = Seq<char>;

    closed spec fn view(&self) -> Seq<char> {
        self.0@
    }
}

impl CapabilityId {
    #[verifier::type_invariant]
    spec fn well_formed(self) -> bool {
        is_valid_identifier(self.0@, false)
    }

    /// Validates `value` as a capability identifier.
    pub fn parse(value: &str) -> (r: Result<Self, IdentifierError>)
        ensures
            r is Ok <==> is_valid_identifier(value@, false),
            r matches Ok(id) ==> id@ == value@,
            r matches Err(e) ==> e.kind_label() == "capability"@,
            r matches Err(e) ==> e == IdentifierError::for_kind("capability"),
    {
        validate_identifier("capability", value, false)?;
        Ok(CapabilityId(value.to_owned()))
    }

    /// Returns the canonical identifier.
    pub fn as_str(&self) -> (r: &str)
        ensures
            r@ == self@,
            is_valid_identifier(r@, false),
    {
        proof {
            use_type_invariant(self);
        }
        self.0.as_str()
    }
}

impl Clone for CapabilityId {
    fn clone(&self) -> (r: Self)
        ensures
            r@ == self@,
    {
        proof {
            use_type_invariant(self);
        }
        CapabilityId(self.0.clone())
    }
}

impl PartialEq for CapabilityId {
    fn eq(&self, other: &Self) -> (r: bool) {
        self.0 == other.0
    }
}

impl PartialEqSpecImpl for CapabilityId {
    open spec fn obeys_eq_spec() -> bool {
        true
    }

    open spec fn eq_spec(&self, other: &Self) -> bool {
        self@ == other@
    }
}

impl std::str::FromStr for CapabilityId {
    type Err = IdentifierError;

    fn from_str(value: &str) -> (r: Result<Self, Self::Err>)
        ensures
            r is Ok <==> is_valid_identifier(value@, false),
            r matches Ok(id) ==> id@ == value@,
            r matches Err(e) ==> e.kind_label() == "capability"@,
            r matches Err(e) ==> e == IdentifierError::for_kind("capability"),
    {
        CapabilityId::parse(value)
    }
}

/// A validated provider identifier.
#[derive(Debug, Eq, Hash, Ord, PartialOrd)]
pub struct ProviderId(String);

impl View for ProviderId {
    type V = Seq<char>;

    closed spec fn view(&self) -> Seq<char> {
        self.0@
    }
}

impl ProviderId {
    #[verifier::type_invariant]
    spec fn well_formed(self) -> bool {
        is_valid_identifier(self.0@, false)
    }

    /// Validates `value` as a provider identifier.
    pub fn parse(value: &str) -> (r: Result<Self, IdentifierError>)
        ensures
            r is Ok <==> is_valid_identifier(value@, false),
            r matches Ok(id) ==> id@ == value@,
            r matches Err(e) ==> e.kind_label() == "provider"@,
            r matches Err(e) ==> e == IdentifierError::for_kind("provider"),
    {
        validate_identifier("provider", value, false)?;
        Ok(ProviderId(value.to_owned()))
    }

    /// Returns the canonical identifier.
    pub fn as_str(&self) -> (r: &str)
        ensures
            r@ == self@,
            is_valid_identifier(r@, false),
    {
        proof {
            use_type_invariant(self);
        }
        self.0.as_str()
    }
}

impl Clone for ProviderId {
    fn clone(&self) -> (r: Self)
        ensures
            r@ == self@,
    {
        proof {
            use_type_invariant(self);
        }
        ProviderId(self.0.clone())
    }
}

impl PartialEq for ProviderId {
    fn eq(&self, other: &Self) -> (r: bool) {
        self.0 == other.0
    }
}

impl PartialEqSpecImpl for ProviderId {
    open spec fn obeys_eq_spec() -> bool {
        true
    }

    open spec fn eq_spec(&self, other: &Self) -> bool {
        self@ == other@
    }
}

impl std::str::FromStr for ProviderId {
    type Err = IdentifierError;

    fn from_str(value: &str) -> (r: Result<Self, Self::Err>)
        ensures
            r is Ok <==> is_valid_identifier(value@, false),
            r matches Ok(id) ==> id@ == value@,
            r matches Err(e) ==> e.kind_label() == "provider"@,
            r matches Err(e) ==> e == IdentifierError::for_kind("provider"),
    {
        ProviderId::parse(value)
    }
}

/// A validated invocation identifier.
#[derive(Debug, Eq, Hash, Ord, PartialOrd)]
pub struct InvocationId(String);

impl View for InvocationId {
    type V = Seq<char>;

    closed spec fn view(&self) -> Seq<char> {
        self.0@
    }
}

impl InvocationId {
    #[verifier::type_invariant]
    spec fn well_formed(self) -> bool {
        is_valid_identifier(self.0@, true)
    }

    /// Validates `value` as a invocation identifier.
    pub fn parse(value: &str) -> (r: Result<Self, IdentifierError>)
        ensures
            r is Ok <==> is_valid_identifier(value@, true),
            r matches Ok(id) ==> id@ == value@,
            r matches Err(e) ==> e.kind_label() == "invocation"@,
            r matches Err(e) ==> e == IdentifierError::for_kind("invocation"),
    {
        validate_identifier("invocation", value, true)?;
        Ok(InvocationId(value.to_owned()))
    }

    /// Returns the canonical identifier.
    pub fn as_str(&self) -> (r: &str)
        ensures
            r@ == self@,
            is_valid_identifier(r@, true),
    {
        proof {
            use_type_invariant(self);
        }
        self.0.as_str()
    }
}

impl Clone for InvocationId {
    fn clone(&self) -> (r: Self)
        ensures
            r@ == self@,
    {
        proof {
            use_type_invariant(self);
        }
        InvocationId(self.0.clone())
    }
}

impl PartialEq for InvocationId {
    fn eq(&self, other: &Self) -> (r: bool) {
        self.0 == other.0
    }
}

impl PartialEqSpecImpl for InvocationId {
    open spec fn obeys_eq_spec() -> bool {
        true
    }

    open spec fn eq_spec(&self, other: &Self) -> bool {
        self@ == other@
    }
}

impl std::str::FromStr for InvocationId {
    type Err = IdentifierError;

    fn from_str(value: &str) -> (r: Result<Self, Self::Err>)
        ensures
            r is Ok <==> is_valid_identifier(value@, true),
            r matches Ok(id) ==> id@ == value@,
            r matches Err(e) ==> e.kind_label() == "invocation"@,
            r matches Err(e) ==> e == IdentifierError::for_kind("invocation"),
    {
        InvocationId::parse(value)
    }
}

/// A validated plugin identifier.
#[derive(Debug, Eq, Hash, Ord, PartialOrd)]
pub struct PluginId(String);

impl View for PluginId {
    type V = Seq<char>;

    closed spec fn view(&self) -> Seq<char> {
        self.0@
    }
}

impl PluginId {
    #[verifier::type_invariant]
    spec fn well_formed(self) -> bool {
        is_valid_identifier(self.0@, false)
    }

    /// Validates `value` as a plugin identifier.
    pub fn parse(value: &str) -> (r: Result<Self, IdentifierError>)
        ensures
            r is Ok <==> is_valid_identifier(value@, false),
            r matches Ok(id) ==> id@ == value@,
            r matches Err(e) ==> e.kind_label() == "plugin"@,
            r matches Err(e) ==> e == IdentifierError::for_kind("plugin"),
    {
        validate_identifier("plugin", value, false)?;
        Ok(PluginId(value.to_owned()))
    }

    /// Returns the canonical identifier.
    pub fn as_str(&self) -> (r: &str)
        ensures
            r@ == self@,
            is_valid_identifier(r@, false),
    {
        proof {
            use_type_invariant(self);
        }
        self.0.as_str()
    }
}

impl Clone for PluginId {
    fn clone(&self) -> (r: Self)
        ensures
            r@ == self@,
    {
        proof {
            use_type_invariant(self);
        }
        PluginId(self.0.clone())
    }
}

impl PartialEq for PluginId {
    fn eq(&self, other: &Self) -> (r: bool) {
        self.0 == other.0
    }
}

impl PartialEqSpecImpl for PluginId {
    open spec fn obeys_eq_spec() -> bool {
        true
    }

    open spec fn eq_spec(&self, other: &Self) -> bool {
        self@ == other@
    }
}

impl std::str::FromStr for PluginId {
    type Err = IdentifierError;

    fn from_str(value: &str) -> (r: Result<Self, Self::Err>)
        ensures
            r is Ok <==> is_valid_identifier(value@, false),
            r matches Ok(id) ==> id@ == value@,
            r matches Err(e) ==> e.kind_label() == "plugin"@,
            r matches Err(e) ==> e == IdentifierError::for_kind("plugin"),
    {
        PluginId::parse(value)
    }
}

/// A validated service identifier.
#[derive(Debug, Eq, Hash, Ord, PartialOrd)]
pub struct ServiceId(String);

impl View for ServiceId {
    type V = Seq<char>;

    closed spec fn view(&self) -> Seq<char> {
        self.0@
    }
}

impl ServiceId {
    #[verifier::type_invariant]
    spec fn well_formed(self) -> bool {
        is_valid_identifier(self.0@, false)
    }

    /// Validates `value` as a service identifier.
    pub fn parse(value: &str) -> (r: Result<Self, IdentifierError>)
        ensures
            r is Ok <==> is_valid_identifier(value@, false),
            r matches Ok(id) ==> id@ == value@,
            r matches Err(e) ==> e.kind_label() == "service"@,
            r matches Err(e) ==> e == IdentifierError::for_kind("service"),
    {
        validate_identifier("service", value, false)?;
        Ok(ServiceId(value.to_owned()))
    }

    /// Returns the canonical identifier.
    pub fn as_str(&self) -> (r: &str)
        ensures
            r@ == self@,
            is_valid_identifier(r@, false),
    {
        proof {
            use_type_invariant(self);
        }
        self.0.as_str()
    }
}

impl Clone for ServiceId {
    fn clone(&self) -> (r: Self)
        ensures
            r@ == self@,
    {
        proof {
            use_type_invariant(self);
        }
        ServiceId(self.0.clone())
    }
}

impl PartialEq for ServiceId {
    fn eq(&self, other: &Self) -> (r: bool) {
        self.0 == other.0
    }
}

impl PartialEqSpecImpl for ServiceId {
    open spec fn obeys_eq_spec() -> bool {
        true
    }

    open spec fn eq_spec(&self, other: &Self) -> bool {
        self@ == other@
    }
}

impl std::str::FromStr for ServiceId {
    type Err = IdentifierError;

    fn from_str(value: &str) -> (r: Result<Self, Self::Err>)
        ensures
            r is Ok <==> is_valid_identifier(value@, false),
            r matches Ok(id) ==> id@ == value@,
            r matches Err(e) ==> e.kind_label() == "service"@,
            r matches Err(e) ==> e == IdentifierError::for_kind("service"),
    {
        ServiceId::parse(value)
    }
}

/// A validated event identifier.
#[derive(Debug, Eq, Hash, Ord, PartialOrd)]
pub struct EventId(String);

impl View for EventId {
    type V = Seq<char>;

    closed spec fn view(&self) -> Seq<char> {
        self.0@
    }
}

impl EventId {
    #[verifier::type_invariant]
    spec fn well_formed(self) -> bool {
        is_valid_identifier(self.0@, false)
    }

    /// Validates `value` as a event identifier.
    pub fn parse(value: &str) -> (r: Result<Self, IdentifierError>)
        ensures
            r is Ok <==> is_valid_identifier(value@, false),
            r matches Ok(id) ==> id@ == value@,
            r matches Err(e) ==> e.kind_label() == "event"@,
            r matches Err(e) ==> e == IdentifierError::for_kind("event"),
    {
        validate_identifier("event", value, false)?;
        Ok(EventId(value.to_owned()))
    }

    /// Returns the canonical identifier.
    pub fn as_str(&self) -> (r: &str)
        ensures
            r@ == self@,
            is_valid_identifier(r@, false),
    {
        proof {
            use_type_invariant(self);
        }
        self.0.as_str()
    }
}

impl Clone for EventId {
    fn clone(&self) -> (r: Self)
        ensures
            r@ == self@,
    {
        proof {
            use_type_invariant(self);
        }
        EventId(self.0.clone())
    }
}

impl PartialEq for EventId {
    fn eq(&self, other: &Self) -> (r: bool) {
        self.0 == other.0
    }
}

impl PartialEqSpecImpl for EventId {
    open spec fn obeys_eq_spec() -> bool {
        true
    }

    open spec fn eq_spec(&self, other: &Self) -> bool {
        self@ == other@
    }
}

impl std::str::FromStr for EventId {
    type Err = IdentifierError;

    fn from_str(value: &str) -> (r: Result<Self, Self::Err>)
        ensures
            r is Ok <==> is_valid_identifier(value@, false),
            r matches Ok(id) ==> id@ == value@,
            r matches Err(e) ==> e.kind_label() == "event"@,
            r matches Err(e) ==> e == IdentifierError::for_kind("event"),
    {
        EventId::parse(value)
    }
}

/// A validated permission identifier.
#[derive(Debug, Eq, Hash, Ord, PartialOrd)]
pub struct PermissionId(String);

impl View for PermissionId {
    type V = Seq<char>;

    closed spec fn view(&self) -> Seq<char> {
        self.0@
    }
}

impl PermissionId {
    #[verifier::type_invariant]
    spec fn well_formed(self) -> bool {
        is_valid_identifier(self.0@, false)
    }

    /// Validates `value` as a permission identifier.
    pub fn parse(value: &str) -> (r: Result<Self, IdentifierError>)
        ensures
            r is Ok <==> is_valid_identifier(value@, false),
            r matches Ok(id) ==> id@ == value@,
            r matches Err(e) ==> e.kind_label() == "permission"@,
            r matches Err(e) ==> e == IdentifierError::for_kind("permission"),
    {
        validate_identifier("permission", value, false)?;
        Ok(PermissionId(value.to_owned()))
    }

    /// Returns the canonical identifier.
    pub fn as_str(&self) -> (r: &str)
        ensures
            r@ == self@,
            is_valid_identifier(r@, false),
    {
        proof {
            use_type_invariant(self);
        }
        self.0.as_str()
    }
}

impl Clone for PermissionId {
    fn clone(&self) -> (r: Self)
        ensures
            r@ == self@,
    {
        proof {
            use_type_invariant(self);
        }
        PermissionId(self.0.clone())
    }
}

impl PartialEq for PermissionId {
    fn eq(&self, other: &Self) -> (r: bool) {
        self.0 == other.0
    }
}

impl PartialEqSpecImpl for PermissionId {
    open spec fn obeys_eq_spec() -> bool {
        true
    }

    open spec fn eq_spec(&self, other: &Self) -> bool {
        self@ == other@
    }
}

impl std::str::FromStr for PermissionId {
    type Err = IdentifierError;

    fn from_str(value: &str) -> (r: Result<Self, Self::Err>)
        ensures
            r is Ok <==> is_valid_identifier(value@, false),
            r matches Ok(id) ==> id@ == value@,
            r matches Err(e) ==> e.kind_label() == "permission"@,
            r matches Err(e) ==> e == IdentifierError::for_kind("permission"),
    {
        PermissionId::parse(value)
    }
}

/// A validated protocol identifier.
#[derive(Debug, Eq, Hash, Ord, PartialOrd)]
pub struct ProtocolId(String);

impl View for ProtocolId {
    type V = Seq<char>;

    closed spec fn view(&self) -> Seq<char> {
        self.0@
    }
}

impl ProtocolId {
    #[verifier::type_invariant]
    spec fn well_formed(self) -> bool {
        is_valid_identifier(self.0@, false)
    }

    /// Validates `value` as a protocol identifier.
    pub fn parse(value: &str) -> (r: Result<Self, IdentifierError>)
        ensures
            r is Ok <==> is_valid_identifier(value@, false),
            r matches Ok(id) ==> id@ == value@,
            r matches Err(e) ==> e.kind_label() == "protocol"@,
            r matches Err(e) ==> e == IdentifierError::for_kind("protocol"),
    {
        validate_identifier("protocol", value, false)?;
        Ok(ProtocolId(value.to_owned()))
    }

    /// Returns the canonical identifier.
    pub fn as_str(&self) -> (r: &str)
        ensures
            r@ == self@,
            is_valid_identifier(r@, false),
    {
        proof {
            use_type_invariant(self);
        }
        self.0.as_str()
    }
}

impl Clone for ProtocolId {
    fn clone(&self) -> (r: Self)
        ensures
            r@ == self@,
    {
        proof {
            use_type_invariant(self);
        }
        ProtocolId(self.0.clone())
    }
}

impl PartialEq for ProtocolId {
    fn eq(&self, other: &Self) -> (r: bool) {
        self.0 == other.0
    }
}

impl PartialEqSpecImpl for ProtocolId {
    open spec fn obeys_eq_spec() -> bool {
        true
    }

    open spec fn eq_spec(&self, other: &Self) -> bool {
        self@ == other@
    }
}

impl std::str::FromStr for ProtocolId {
    type Err = IdentifierError;

    fn from_str(value: &str) -> (r: Result<Self, Self::Err>)
        ensures
            r is Ok <==> is_valid_identifier(value@, false),
            r matches Ok(id) ==> id@ == value@,
            r matches Err(e) ==> e.kind_label() == "protocol"@,
            r matches Err(e) ==> e == IdentifierError::for_kind("protocol"),
    {
        ProtocolId::parse(value)
    }
}

} // verus!

//! Bounded identifiers and the sealed byte identifiers of native authority.

use crate::bytes;
use crate::bytes::{compare_bytes, same_array, Order};
use crate::primitives::{constant_time_same, system_entropy, utf8_text};
use crate::table::{Key, Record};
use vstd::prelude::*;
use vstd::utf8::*;

verus! {

/// Longest identifier, in bytes.
pub const MAX_TOKEN_BYTES: usize = 256;

/// An ASCII letter or digit, or one of `-`, `_`, `:` and `.`.
pub open spec fn token_byte(byte: u8) -> bool {
    ||| 0x30 <= byte <= 0x39
    ||| 0x41 <= byte <= 0x5a
    ||| 0x61 <= byte <= 0x7a
    ||| byte == 0x2d
    ||| byte == 0x5f
    ||| byte == 0x3a
    ||| byte == 0x2e
}

/// At least one and at most `max` bytes, each of them a token byte.
pub open spec fn bounded_token(text: Seq<u8>, max: int) -> bool {
    &&& 0 < text.len() <= max
    &&& forall|i: int| 0 <= i < text.len() ==> token_byte(#[trigger] text[i])
}

/// Whether `value` is a bounded token of at most `max_bytes` bytes.
pub fn is_bounded_token(value: &str, max_bytes: usize) -> (ok: bool)
    ensures
        ok == bounded_token(encode_utf8(value@), max_bytes as int),
{
    let bytes = value.as_bytes();
    if bytes.len() == 0 || bytes.len() > max_bytes {
        return false;
    }
    let mut i: usize = 0;
    while i < bytes.len()
        invariant
            i <= bytes.len(),
            bytes@ == encode_utf8(value@),
            forall|j: int| 0 <= j < i ==> token_byte(#[trigger] bytes@[j]),
        decreases bytes.len() - i,
    {
        let byte: u8 = bytes[i];
        let allowed = (0x30 <= byte && byte <= 0x39) || (0x41 <= byte && byte <= 0x5a) || (0x61
            <= byte && byte <= 0x7a) || byte == 0x2d || byte == 0x5f || byte == 0x3a || byte
            == 0x2e;
        if !allowed {
            assert(!token_byte(encode_utf8(value@)[i as int]));
            return false;
        }
        i += 1;
    }
    true
}

/// Number of leading nonzero bytes.
pub open spec fn leading_nonzero(bytes: Seq<u8>) -> nat
    decreases bytes.len(),
{
    if bytes.len() == 0 || bytes[0] == 0 {
        0
    } else {
        1 + leading_nonzero(bytes.drop_first())
    }
}

proof fn leading_nonzero_at(bytes: Seq<u8>, n: int)
    requires
        0 <= n <= bytes.len(),
        forall|i: int| 0 <= i < n ==> bytes[i] != 0,
        n < bytes.len() ==> bytes[n] == 0,
    ensures
        leading_nonzero(bytes) == n,
    decreases n,
{
    if n > 0 {
        assert(bytes[0] != 0);
        assert forall|i: int| 0 <= i < n - 1 implies bytes.drop_first()[i] != 0 by {
            assert(bytes[i + 1] != 0);
        }
        leading_nonzero_at(bytes.drop_first(), n - 1);
    }
}

proof fn leading_nonzero_bound(bytes: Seq<u8>)
    ensures
        leading_nonzero(bytes) <= bytes.len(),
    decreases bytes.len(),
{
    if bytes.len() > 0 && bytes[0] != 0 {
        leading_nonzero_bound(bytes.drop_first());
    }
}

/// Text of one to 256 token bytes, stored inline and padded with zeros.
#[derive(Clone, Copy, PartialEq, Eq)]
pub struct Token {
    bytes: [u8; 256],
}

impl Token {
    /// The stored bytes, padding included.
    pub closed spec fn padded(self) -> Seq<u8> {
        self.bytes@
    }

    /// The text of the token.
    pub closed spec fn text(self) -> Seq<u8> {
        self.bytes@.take(leading_nonzero(self.bytes@) as int)
    }

    /// The text of the token as characters.
    pub open spec fn chars(self) -> Seq<char> {
        decode_utf8(self.text())
    }

    /// Token bytes first, zeros behind them.
    pub closed spec fn well_formed(self) -> bool {
        &&& bounded_token(self.text(), 256)
        &&& forall|i: int|
            self.text().len() <= i < 256 ==> #[trigger] self.bytes@[i] == 0
    }

    #[verifier::type_invariant]
    spec fn holds(self) -> bool {
        self.well_formed()
    }

    /// Tokens with the same stored bytes are the same token.
    pub proof fn padded_injective(a: Token, b: Token)
        requires
            a.padded() == b.padded(),
        ensures
            a == b,
    {
        assert forall|i: int| 0 <= i < 256 implies a.bytes[i] == b.bytes[i] by {
            assert(a.bytes@[i] == b.bytes@[i]);
        }
        assert(a.bytes =~= b.bytes);
    }

    /// Well-formed tokens with the same text are the same token.
    pub proof fn text_injective(a: Token, b: Token)
        requires
            a.well_formed(),
            b.well_formed(),
            a.text() == b.text(),
        ensures
            a == b,
    {
        leading_nonzero_bound(a.bytes@);
        leading_nonzero_bound(b.bytes@);
        assert forall|i: int| 0 <= i < 256 implies a.bytes@[i] == b.bytes@[i] by {
            if i < a.text().len() {
                assert(a.text()[i] == a.bytes@[i]);
                assert(b.text()[i] == b.bytes@[i]);
            } else {
                assert(a.bytes@[i] == 0 && b.bytes@[i] == 0);
            }
        }
        assert(a.bytes =~= b.bytes);
    }

    /// The text of a well-formed token is a bounded token.
    pub proof fn text_bounded(self)
        requires
            self.well_formed(),
        ensures
            bounded_token(self.text(), 256),
    {
    }

    /// Accepts exactly the bounded tokens of at most 256 bytes.
    pub fn new(value: &str) -> (result: Option<Token>)
        ensures
            match result {
                Some(token) => bounded_token(encode_utf8(value@), 256) && token.text()
                    == encode_utf8(value@) && token.chars() == value@ && token == token_of(
                    encode_utf8(value@),
                ),
                None => !bounded_token(encode_utf8(value@), 256),
            },
    {
        if !is_bounded_token(value, MAX_TOKEN_BYTES) {
            return None;
        }
        let source = value.as_bytes();
        let mut bytes: [u8; 256] = [0u8;256];
        let mut i: usize = 0;
        while i < source.len()
            invariant
                i <= source.len() <= 256,
                source@ == encode_utf8(value@),
                forall|j: int| 0 <= j < i ==> bytes@[j] == source@[j],
                forall|j: int| i <= j < 256 ==> #[trigger] bytes@[j] == 0,
            decreases source.len() - i,
        {
            bytes[i] = source[i];
            i += 1;
        }
        let ghost candidate = Token { bytes };
        proof {
            assert forall|j: int| 0 <= j < source@.len() implies bytes@[j] != 0 by {
                assert(token_byte(source@[j]));
            }
            leading_nonzero_at(bytes@, source@.len() as int);
            assert(candidate.text() =~= source@);
            assert(candidate.well_formed());
        }
        let token = Token { bytes };
        proof {
            let named = token_of(source@);
            assert(named.well_formed() && named.text() == source@);
            Token::text_injective(token, named);
            encode_utf8_decode_utf8(value@);
        }
        Some(token)
    }

    /// The text of the token.
    pub fn as_str(&self) -> (text: &str)
        ensures
            encode_utf8(text@) == self.text(),
            text@ == self.chars(),
    {
        proof {
            use_type_invariant(self);
        }
        let mut n: usize = 0;
        while n < 256 && self.bytes[n] != 0
            invariant
                n <= 256,
                forall|i: int| 0 <= i < n ==> self.bytes@[i] != 0,
            decreases 256 - n,
        {
            n += 1;
        }
        proof {
            leading_nonzero_at(self.bytes@, n as int);
            ascii_is_valid_utf8(self.text());
        }
        let slice = &self.bytes[0..n];
        assert(slice@ =~= self.text());
        match utf8_text(slice) {
            Some(text) => {
                proof {
                    encode_utf8_decode_utf8(text@);
                }
                text
            },
            None => "",
        }
    }

    /// Whether two tokens are the same.
    pub fn same(&self, other: &Token) -> (same: bool)
        ensures
            same == (*self == *other),
    {
        let mut i: usize = 0;
        while i < 256
            invariant
                i <= 256,
                forall|j: int| 0 <= j < i ==> self.bytes@[j] == other.bytes@[j],
            decreases 256 - i,
        {
            if self.bytes[i] != other.bytes[i] {
                return false;
            }
            i += 1;
        }
        assert(self.bytes =~= other.bytes);
        true
    }

    /// Orders tokens by their text.
    pub fn compare(&self, other: &Token) -> (order: Order)
        ensures
            order == Order::Less <==> bytes::lex_lt(self.padded(), other.padded()),
            order == Order::Greater <==> bytes::lex_lt(other.padded(), self.padded()),
            order == Order::Equal <==> *self == *other,
    {
        let order = compare_bytes(self.bytes.as_slice(), other.bytes.as_slice());
        proof {
            if self.bytes@ == other.bytes@ {
                assert(self.bytes =~= other.bytes);
            }
        }
        order
    }
}

/// The token with the given text.
pub open spec fn token_of(text: Seq<u8>) -> Token {
    choose|token: Token| token.well_formed() && #[trigger] token.text() == text
}

/// Sequences of ASCII bytes are valid UTF-8.
pub proof fn ascii_is_valid_utf8(bytes: Seq<u8>)
    requires
        forall|i: int| 0 <= i < bytes.len() ==> #[trigger] token_byte(bytes[i]),
    ensures
        valid_utf8(bytes),
    decreases bytes.len(),
{
    if bytes.len() > 0 {
        let rest = pop_first_scalar(bytes);
        assert(token_byte(bytes[0]));
        assert(valid_first_scalar(bytes)) by {
            let b = bytes[0];
            assert((b & 0x7f) == b) by (bit_vector)
                requires
                    b <= 0x7f,
            ;
        }
        assert forall|i: int| 0 <= i < rest.len() implies #[trigger] token_byte(rest[i]) by {
            assert(token_byte(bytes[i + 1]));
        }
        ascii_is_valid_utf8(rest);
    }
}

/// Names one armed wait.
#[derive(Clone, Copy, PartialEq, Eq)]
pub struct ArmId {
    pub token: Token,
}

impl ArmId {
    /// The identifier with the given text.
    pub open spec fn named(text: Seq<char>) -> ArmId {
        ArmId { token: token_of(encode_utf8(text)) }
    }

    /// The text of the identifier.
    pub open spec fn chars(self) -> Seq<char> {
        self.token.chars()
    }

    /// Accepts exactly the bounded tokens of at most 256 bytes.
    pub fn new(value: &str) -> (result: Result<ArmId, &'static str>)
        ensures
            match result {
                Ok(id) => bounded_token(encode_utf8(value@), 256) && id.chars() == value@
                    && id == ArmId::named(value@),
                Err(reason) => !bounded_token(encode_utf8(value@), 256) && reason@
                    == "invalid bounded identifier"@,
            },
    {
        match Token::new(value) {
            Some(token) => Ok(ArmId { token }),
            None => Err("invalid bounded identifier"),
        }
    }

    pub fn as_str(&self) -> (text: &str)
        ensures
            text@ == self.chars(),
    {
        self.token.as_str()
    }

    pub fn same(&self, other: &ArmId) -> (same: bool)
        ensures
            same == (*self == *other),
    {
        self.token.same(&other.token)
    }
}

impl Key for ArmId {
    open spec fn rank(self) -> Seq<u8> {
        self.token.padded()
    }

    proof fn rank_injective(a: Self, b: Self) {
        Token::padded_injective(a.token, b.token);
    }

    fn order(&self, other: &ArmId) -> (order: Order) {
        self.token.compare(&other.token)
    }
}

impl View for ArmId {
    type V = ArmId;

    open spec fn view(&self) -> ArmId {
        *self
    }
}

impl Record for ArmId {
    fn dup(&self) -> (copy: ArmId) {
        *self
    }
}

/// Names the seat that an arm serves.
#[derive(Clone, Copy, PartialEq, Eq)]
pub struct SeatId {
    pub token: Token,
}

impl SeatId {
    /// The identifier with the given text.
    pub open spec fn named(text: Seq<char>) -> SeatId {
        SeatId { token: token_of(encode_utf8(text)) }
    }

    /// The text of the identifier.
    pub open spec fn chars(self) -> Seq<char> {
        self.token.chars()
    }

    /// Accepts exactly the bounded tokens of at most 256 bytes.
    pub fn new(value: &str) -> (result: Result<SeatId, &'static str>)
        ensures
            match result {
                Ok(id) => bounded_token(encode_utf8(value@), 256) && id.chars() == value@
                    && id == SeatId::named(value@),
                Err(reason) => !bounded_token(encode_utf8(value@), 256) && reason@
                    == "invalid bounded identifier"@,
            },
    {
        match Token::new(value) {
            Some(token) => Ok(SeatId { token }),
            None => Err("invalid bounded identifier"),
        }
    }

    pub fn as_str(&self) -> (text: &str)
        ensures
            text@ == self.chars(),
    {
        self.token.as_str()
    }

    pub fn same(&self, other: &SeatId) -> (same: bool)
        ensures
            same == (*self == *other),
    {
        self.token.same(&other.token)
    }
}

impl Key for SeatId {
    open spec fn rank(self) -> Seq<u8> {
        self.token.padded()
    }

    proof fn rank_injective(a: Self, b: Self) {
        Token::padded_injective(a.token, b.token);
    }

    fn order(&self, other: &SeatId) -> (order: Order) {
        self.token.compare(&other.token)
    }
}

impl View for SeatId {
    type V = SeatId;

    open spec fn view(&self) -> SeatId {
        *self
    }
}

impl Record for SeatId {
    fn dup(&self) -> (copy: SeatId) {
        *self
    }
}

/// Names one attempt to handle a claimed signal.
#[derive(Clone, Copy, PartialEq, Eq)]
pub struct AttemptId {
    pub token: Token,
}

impl AttemptId {
    /// The identifier with the given text.
    pub open spec fn named(text: Seq<char>) -> AttemptId {
        AttemptId { token: token_of(encode_utf8(text)) }
    }

    /// The text of the identifier.
    pub open spec fn chars(self) -> Seq<char> {
        self.token.chars()
    }

    /// Accepts exactly the bounded tokens of at most 256 bytes.
    pub fn new(value: &str) -> (result: Result<AttemptId, &'static str>)
        ensures
            match result {
                Ok(id) => bounded_token(encode_utf8(value@), 256) && id.chars() == value@
                    && id == AttemptId::named(value@),
                Err(reason) => !bounded_token(encode_utf8(value@), 256) && reason@
                    == "invalid bounded identifier"@,
            },
    {
        match Token::new(value) {
            Some(token) => Ok(AttemptId { token }),
            None => Err("invalid bounded identifier"),
        }
    }

    pub fn as_str(&self) -> (text: &str)
        ensures
            text@ == self.chars(),
    {
        self.token.as_str()
    }

    pub fn same(&self, other: &AttemptId) -> (same: bool)
        ensures
            same == (*self == *other),
    {
        self.token.same(&other.token)
    }
}

impl Key for AttemptId {
    open spec fn rank(self) -> Seq<u8> {
        self.token.padded()
    }

    proof fn rank_injective(a: Self, b: Self) {
        Token::padded_injective(a.token, b.token);
    }

    fn order(&self, other: &AttemptId) -> (order: Order) {
        self.token.compare(&other.token)
    }
}

impl View for AttemptId {
    type V = AttemptId;

    open spec fn view(&self) -> AttemptId {
        *self
    }
}

impl Record for AttemptId {
    fn dup(&self) -> (copy: AttemptId) {
        *self
    }
}

/// Names one provider signal.
#[derive(Clone, Copy, PartialEq, Eq)]
pub struct SignalId {
    pub token: Token,
}

impl SignalId {
    /// The identifier with the given text.
    pub open spec fn named(text: Seq<char>) -> SignalId {
        SignalId { token: token_of(encode_utf8(text)) }
    }

    /// The text of the identifier.
    pub open spec fn chars(self) -> Seq<char> {
        self.token.chars()
    }

    /// Accepts exactly the bounded tokens of at most 256 bytes.
    pub fn new(value: &str) -> (result: Result<SignalId, &'static str>)
        ensures
            match result {
                Ok(id) => bounded_token(encode_utf8(value@), 256) && id.chars() == value@
                    && id == SignalId::named(value@),
                Err(reason) => !bounded_token(encode_utf8(value@), 256) && reason@
                    == "invalid bounded identifier"@,
            },
    {
        match Token::new(value) {
            Some(token) => Ok(SignalId { token }),
            None => Err("invalid bounded identifier"),
        }
    }

    pub fn as_str(&self) -> (text: &str)
        ensures
            text@ == self.chars(),
    {
        self.token.as_str()
    }

    pub fn same(&self, other: &SignalId) -> (same: bool)
        ensures
            same == (*self == *other),
    {
        self.token.same(&other.token)
    }
}

impl Key for SignalId {
    open spec fn rank(self) -> Seq<u8> {
        self.token.padded()
    }

    proof fn rank_injective(a: Self, b: Self) {
        Token::padded_injective(a.token, b.token);
    }

    fn order(&self, other: &SignalId) -> (order: Order) {
        self.token.compare(&other.token)
    }
}

impl View for SignalId {
    type V = SignalId;

    open spec fn view(&self) -> SignalId {
        *self
    }
}

impl Record for SignalId {
    fn dup(&self) -> (copy: SignalId) {
        *self
    }
}

/// Names one request to claim a signal.
#[derive(Clone, Copy, PartialEq, Eq)]
pub struct ClaimRequestId {
    pub token: Token,
}

impl ClaimRequestId {
    /// The identifier with the given text.
    pub open spec fn named(text: Seq<char>) -> ClaimRequestId {
        ClaimRequestId { token: token_of(encode_utf8(text)) }
    }

    /// The text of the identifier.
    pub open spec fn chars(self) -> Seq<char> {
        self.token.chars()
    }

    /// Accepts exactly the bounded tokens of at most 256 bytes.
    pub fn new(value: &str) -> (result: Result<ClaimRequestId, &'static str>)
        ensures
            match result {
                Ok(id) => bounded_token(encode_utf8(value@), 256) && id.chars() == value@
                    && id == ClaimRequestId::named(value@),
                Err(reason) => !bounded_token(encode_utf8(value@), 256) && reason@
                    == "invalid bounded identifier"@,
            },
    {
        match Token::new(value) {
            Some(token) => Ok(ClaimRequestId { token }),
            None => Err("invalid bounded identifier"),
        }
    }

    pub fn as_str(&self) -> (text: &str)
        ensures
            text@ == self.chars(),
    {
        self.token.as_str()
    }

    pub fn same(&self, other: &ClaimRequestId) -> (same: bool)
        ensures
            same == (*self == *other),
    {
        self.token.same(&other.token)
    }
}

impl Key for ClaimRequestId {
    open spec fn rank(self) -> Seq<u8> {
        self.token.padded()
    }

    proof fn rank_injective(a: Self, b: Self) {
        Token::padded_injective(a.token, b.token);
    }

    fn order(&self, other: &ClaimRequestId) -> (order: Order) {
        self.token.compare(&other.token)
    }
}

impl View for ClaimRequestId {
    type V = ClaimRequestId;

    open spec fn view(&self) -> ClaimRequestId {
        *self
    }
}

impl Record for ClaimRequestId {
    fn dup(&self) -> (copy: ClaimRequestId) {
        *self
    }
}

/// Names one birth of a native controller.
#[derive(Clone, Copy, PartialEq, Eq)]
pub struct ControllerBirthId(pub [u8; 32]);

impl ControllerBirthId {
    pub fn same(&self, other: &ControllerBirthId) -> (same: bool)
        ensures
            same == (*self == *other),
    {
        same_array(&self.0, &other.0)
    }

    /// How the value is shown: its bytes stay out.
    pub fn redacted(&self) -> (text: String)
        ensures
            text@ == "ControllerBirthId([redacted])"@,
    {
        "ControllerBirthId([redacted])".to_owned()
    }
}

impl View for ControllerBirthId {
    type V = ControllerBirthId;

    open spec fn view(&self) -> ControllerBirthId {
        *self
    }
}

impl Record for ControllerBirthId {
    fn dup(&self) -> (copy: ControllerBirthId) {
        *self
    }
}

impl Key for ControllerBirthId {
    open spec fn rank(self) -> Seq<u8> {
        self.0@
    }

    proof fn rank_injective(a: Self, b: Self) {
        bytes::array_of_view(a.0);
        bytes::array_of_view(b.0);
    }

    fn order(&self, other: &ControllerBirthId) -> (order: Order) {
        let order = compare_bytes(self.0.as_slice(), other.0.as_slice());
        proof {
            if self.0@ == other.0@ {
                assert(self.0 =~= other.0);
            }
        }
        order
    }
}

/// Names a sealed native coordinate.
#[derive(Clone, Copy, PartialEq, Eq)]
pub struct PrivateNativeRef(pub [u8; 32]);

impl PrivateNativeRef {
    pub fn same(&self, other: &PrivateNativeRef) -> (same: bool)
        ensures
            same == (*self == *other),
    {
        same_array(&self.0, &other.0)
    }

    /// How the value is shown: its bytes stay out.
    pub fn redacted(&self) -> (text: String)
        ensures
            text@ == "PrivateNativeRef([redacted])"@,
    {
        "PrivateNativeRef([redacted])".to_owned()
    }
}

impl View for PrivateNativeRef {
    type V = PrivateNativeRef;

    open spec fn view(&self) -> PrivateNativeRef {
        *self
    }
}

impl Record for PrivateNativeRef {
    fn dup(&self) -> (copy: PrivateNativeRef) {
        *self
    }
}

impl Key for PrivateNativeRef {
    open spec fn rank(self) -> Seq<u8> {
        self.0@
    }

    proof fn rank_injective(a: Self, b: Self) {
        bytes::array_of_view(a.0);
        bytes::array_of_view(b.0);
    }

    fn order(&self, other: &PrivateNativeRef) -> (order: Order) {
        let order = compare_bytes(self.0.as_slice(), other.0.as_slice());
        proof {
            if self.0@ == other.0@ {
                assert(self.0 =~= other.0);
            }
        }
        order
    }
}

/// Names one native request or probe.
#[derive(Clone, Copy, PartialEq, Eq)]
pub struct RequestNonce(pub [u8; 32]);

impl RequestNonce {
    pub fn same(&self, other: &RequestNonce) -> (same: bool)
        ensures
            same == (*self == *other),
    {
        same_array(&self.0, &other.0)
    }

    /// How the value is shown: its bytes stay out.
    pub fn redacted(&self) -> (text: String)
        ensures
            text@ == "RequestNonce([redacted])"@,
    {
        "RequestNonce([redacted])".to_owned()
    }
}

impl View for RequestNonce {
    type V = RequestNonce;

    open spec fn view(&self) -> RequestNonce {
        *self
    }
}

impl Record for RequestNonce {
    fn dup(&self) -> (copy: RequestNonce) {
        *self
    }
}

impl Key for RequestNonce {
    open spec fn rank(self) -> Seq<u8> {
        self.0@
    }

    proof fn rank_injective(a: Self, b: Self) {
        bytes::array_of_view(a.0);
        bytes::array_of_view(b.0);
    }

    fn order(&self, other: &RequestNonce) -> (order: Order) {
        let order = compare_bytes(self.0.as_slice(), other.0.as_slice());
        proof {
            if self.0@ == other.0@ {
                assert(self.0 =~= other.0);
            }
        }
        order
    }
}

/// Keyed digest of one exact active observation.
#[derive(Clone, Copy, PartialEq, Eq)]
pub struct ActiveObservationFingerprint(pub [u8; 32]);

impl ActiveObservationFingerprint {
    pub fn same(&self, other: &ActiveObservationFingerprint) -> (same: bool)
        ensures
            same == (*self == *other),
    {
        same_array(&self.0, &other.0)
    }

    /// How the value is shown: its bytes stay out.
    pub fn redacted(&self) -> (text: String)
        ensures
            text@ == "ActiveObservationFingerprint([redacted])"@,
    {
        "ActiveObservationFingerprint([redacted])".to_owned()
    }
}

impl View for ActiveObservationFingerprint {
    type V = ActiveObservationFingerprint;

    open spec fn view(&self) -> ActiveObservationFingerprint {
        *self
    }
}

impl Record for ActiveObservationFingerprint {
    fn dup(&self) -> (copy: ActiveObservationFingerprint) {
        *self
    }
}

/// Names the durable evidence of one exact active observation.
#[derive(Clone, Copy, PartialEq, Eq)]
pub struct ActiveObservationEvidenceRef(pub [u8; 32]);

impl ActiveObservationEvidenceRef {
    pub fn same(&self, other: &ActiveObservationEvidenceRef) -> (same: bool)
        ensures
            same == (*self == *other),
    {
        same_array(&self.0, &other.0)
    }

    /// How the value is shown: its bytes stay out.
    pub fn redacted(&self) -> (text: String)
        ensures
            text@ == "ActiveObservationEvidenceRef([redacted])"@,
    {
        "ActiveObservationEvidenceRef([redacted])".to_owned()
    }
}

impl View for ActiveObservationEvidenceRef {
    type V = ActiveObservationEvidenceRef;

    open spec fn view(&self) -> ActiveObservationEvidenceRef {
        *self
    }
}

impl Record for ActiveObservationEvidenceRef {
    fn dup(&self) -> (copy: ActiveObservationEvidenceRef) {
        *self
    }
}

/// The operating system gave no random bytes.
#[derive(Clone, Copy, Debug, PartialEq, Eq, Structural)]
pub struct EntropyError;

/// Draws 32 random bytes. Which they are, and whether there are any, is the
/// operating system's choice.
pub fn random_bytes() -> (drawn: Result<[u8; 32], EntropyError>) {
    drawn_bytes(system_entropy())
}

/// What the operating system's answer to a draw comes to: exactly its bytes,
/// and one error whatever kept it from giving any.
pub fn drawn_bytes(answer: Result<[u8; 32], getrandom::Error>) -> (drawn: Result<
    [u8; 32],
    EntropyError,
>)
    ensures
        drawn == match answer {
            Ok(bytes) => Ok::<[u8; 32], EntropyError>(bytes),
            Err(_) => Err(EntropyError),
        },
{
    match answer {
        Ok(bytes) => Ok(bytes),
        Err(_) => Err(EntropyError),
    }
}

impl RequestNonce {
    /// A fresh nonce. Its bytes, and whether there are any, are the operating
    /// system's choice.
    pub fn random() -> (drawn: Result<RequestNonce, EntropyError>) {
        RequestNonce::from_drawn(random_bytes())
    }

    /// The nonce of a draw: exactly the bytes drawn.
    pub fn from_drawn(draw: Result<[u8; 32], EntropyError>) -> (drawn: Result<
        RequestNonce,
        EntropyError,
    >)
        ensures
            drawn == match draw {
                Ok(bytes) => Ok(RequestNonce(bytes)),
                Err(error) => Err(error),
            },
    {
        match draw {
            Ok(bytes) => Ok(RequestNonce(bytes)),
            Err(error) => Err(error),
        }
    }
}

impl ControllerBirthId {
    /// A fresh birth identifier. Its bytes, and whether there are any, are the operating
    /// system's choice.
    pub fn random() -> (drawn: Result<ControllerBirthId, EntropyError>) {
        ControllerBirthId::from_drawn(random_bytes())
    }

    /// The birth identifier of a draw: exactly the bytes drawn.
    pub fn from_drawn(draw: Result<[u8; 32], EntropyError>) -> (drawn: Result<
        ControllerBirthId,
        EntropyError,
    >)
        ensures
            drawn == match draw {
                Ok(bytes) => Ok(ControllerBirthId(bytes)),
                Err(error) => Err(error),
            },
    {
        match draw {
            Ok(bytes) => Ok(ControllerBirthId(bytes)),
            Err(error) => Err(error),
        }
    }
}

/// Opaque verifier handle. Its value is never safe output, and comparison takes
/// constant time because a persistence backend may key live proof to it.
#[derive(Clone, Copy)]
pub struct VerifierRef(pub [u8; 32]);

impl PartialEq for VerifierRef {
    fn eq(&self, other: &VerifierRef) -> (same: bool) {
        self.same(other)
    }
}

impl vstd::std_specs::cmp::PartialEqSpecImpl for VerifierRef {
    open spec fn obeys_eq_spec() -> bool {
        true
    }

    open spec fn eq_spec(&self, other: &VerifierRef) -> bool {
        *self == *other
    }
}

impl Eq for VerifierRef {}

impl VerifierRef {
    pub fn same(&self, other: &VerifierRef) -> (same: bool)
        ensures
            same == (*self == *other),
    {
        let same = constant_time_same(&self.0, &other.0);
        proof {
            if self.0@ == other.0@ {
                assert(self.0 =~= other.0);
            }
        }
        same
    }

    /// A fresh verifier. Its bytes, and whether there are any, are the operating
    /// system's choice.
    pub fn random() -> (drawn: Result<VerifierRef, EntropyError>) {
        VerifierRef::from_drawn(random_bytes())
    }

    /// The verifier of a draw: exactly the bytes drawn.
    pub fn from_drawn(draw: Result<[u8; 32], EntropyError>) -> (drawn: Result<
        VerifierRef,
        EntropyError,
    >)
        ensures
            drawn == match draw {
                Ok(bytes) => Ok(VerifierRef(bytes)),
                Err(error) => Err(error),
            },
    {
        match draw {
            Ok(bytes) => Ok(VerifierRef(bytes)),
            Err(error) => Err(error),
        }
    }

    pub fn bytes(&self) -> (bytes: &[u8; 32])
        ensures
            *bytes == self.0,
    {
        &self.0
    }

    /// How the value is shown: its bytes stay out.
    pub fn redacted(&self) -> (text: String)
        ensures
            text@ == "VerifierRef([redacted])"@,
    {
        "VerifierRef([redacted])".to_owned()
    }
}

impl View for VerifierRef {
    type V = VerifierRef;

    open spec fn view(&self) -> VerifierRef {
        *self
    }
}

impl Record for VerifierRef {
    fn dup(&self) -> (copy: VerifierRef) {
        *self
    }
}

} // verus!

//! A non-generic error carrier for dynamic serialization and deserialization.
//!
//! An [`Error`] keeps the classification of a deserialization error (or a
//! free-text message) so that it can be rebuilt, at the next erasure
//! boundary, into the nearest equivalent error of any concrete backend.
use vstd::prelude::*;
use vstd::string::StringExecFns;

verus! {

/// The decimal digits of `n`, most significant first, without leading zeros.
pub open spec fn digits_text(n: nat) -> Seq<char>
    decreases n,
{
    if n < 10 {
        seq![seq!['0', '1', '2', '3', '4', '5', '6', '7', '8', '9'][n as int]]
    } else {
        digits_text(n / 10) + seq![seq!['0', '1', '2', '3', '4', '5', '6', '7', '8', '9'][(n % 10) as int]]
    }
}

/// The decimal rendering of an integer, with a leading `-` when negative.
pub open spec fn decimal_text(v: int) -> Seq<char> {
    if v < 0 {
        seq!['-'] + digits_text((-v) as nat)
    } else {
        digits_text(v as nat)
    }
}

/// What `{:?}` writes for a string: the string between double quotes, with
/// its special characters escaped.
pub uninterp spec fn debug_quoted(s: Seq<char>) -> Seq<char>;

/// The decimal digit `d` as a one-character string.
fn digit_string(d: u128) -> (r: &'static str)
    requires
        d < 10,
    ensures
        r@ == seq![seq!['0', '1', '2', '3', '4', '5', '6', '7', '8', '9'][d as int]],
{
    proof {
        reveal_strlit("0");
        reveal_strlit("1");
        reveal_strlit("2");
        reveal_strlit("3");
        reveal_strlit("4");
        reveal_strlit("5");
        reveal_strlit("6");
        reveal_strlit("7");
        reveal_strlit("8");
        reveal_strlit("9");
    }
    if d == 0 {
        "0"
    } else if d == 1 {
        "1"
    } else if d == 2 {
        "2"
    } else if d == 3 {
        "3"
    } else if d == 4 {
        "4"
    } else if d == 5 {
        "5"
    } else if d == 6 {
        "6"
    } else if d == 7 {
        "7"
    } else if d == 8 {
        "8"
    } else {
        "9"
    }
}

/// The decimal digits of `n`, most significant first.
fn digits(n: u128) -> (r: String)
    ensures
        r@ == digits_text(n as nat),
    decreases n,
{
    if n < 10 {
        String::from_str(digit_string(n))
    } else {
        let head = digits(n / 10);
        let last = digit_string(n % 10);
        assert((n / 10) as nat == (n as nat) / 10);
        head.concat(last)
    }
}

/// The decimal rendering of `v`, with a `-` in front of a negative value.
fn decimal(v: i128) -> (r: String)
    requires
        v > i128::MIN,
    ensures
        r@ == decimal_text(v as int),
{
    if v < 0 {
        proof {
            reveal_strlit("-");
        }
        String::from_str("-").concat(digits((-v) as u128).as_str())
    } else {
        digits(v as u128)
    }
}

/// Relies on the `Display` impl of `char` (reached through `ToString`): it
/// writes the character itself.
#[verifier::external_body]
fn char_string(c: char) -> (r: String)
    ensures
        r@ == seq![c],
{
    c.to_string()
}

/// Relies on the `Debug` impl of `str`: it quotes and escapes the string.
#[verifier::external_body]
fn quoted(s: &str) -> (r: String)
    ensures
        r@ == debug_quoted(s@),
{
    format!("{:?}", s)
}

/// `prefix`, then `middle`, then `suffix`.
fn enclose(prefix: &str, middle: &str, suffix: &str) -> (r: String)
    ensures
        r@ == prefix@ + middle@ + suffix@,
{
    String::from_str(prefix).concat(middle).concat(suffix)
}

/// An owned description of a value that the input held but the receiving
/// side did not expect.
#[derive(Clone, Debug, PartialEq)]
pub enum Unexpected {
    /// A boolean.
    Bool(bool),
    /// An unsigned integer (`u8`, `u16`, `u32` or `u64`).
    Unsigned(u64),
    /// A signed integer (`i8`, `i16`, `i32` or `i64`).
    Signed(i64),
    /// A floating-point number: its bit pattern, and its decimal rendering
    /// (which always shows a decimal point for a finite value).
    Float(u64, String),
    /// A character.
    Char(char),
    /// A string.
    Str(String),
    /// A byte string.
    Bytes(Vec<u8>),
    /// The unit value.
    Unit,
    /// An optional value.
    Option,
    /// A newtype struct.
    NewtypeStruct,
    /// A sequence.
    Sequence,
    /// A map.
    Mapping,
    /// An enum.
    Enum,
    /// A unit variant.
    UnitVariant,
    /// A newtype variant.
    NewtypeVariant,
    /// A tuple variant.
    TupleVariant,
    /// A struct variant.
    StructVariant,
    /// Something else, described by a noun phrase.
    Other(String),
}

/// How an unexpected value is named in an error message.
pub open spec fn unexpected_text(u: Unexpected) -> Seq<char> {
    match u {
        Unexpected::Bool(b) => "boolean `"@ + (if b {
            "true"@
        } else {
            "false"@
        }) + "`"@,
        Unexpected::Unsigned(v) => "integer `"@ + decimal_text(v as int) + "`"@,
        Unexpected::Signed(v) => "integer `"@ + decimal_text(v as int) + "`"@,
        Unexpected::Float(_, text) => "floating point `"@ + text@ + "`"@,
        Unexpected::Char(c) => "character `"@ + seq![c] + "`"@,
        Unexpected::Str(s) => "string "@ + debug_quoted(s@),
        Unexpected::Bytes(_) => "byte array"@,
        Unexpected::Unit => "unit value"@,
        Unexpected::Option => "Option value"@,
        Unexpected::NewtypeStruct => "newtype struct"@,
        Unexpected::Sequence => "sequence"@,
        Unexpected::Mapping => "map"@,
        Unexpected::Enum => "enum"@,
        Unexpected::UnitVariant => "unit variant"@,
        Unexpected::NewtypeVariant => "newtype variant"@,
        Unexpected::TupleVariant => "tuple variant"@,
        Unexpected::StructVariant => "struct variant"@,
        Unexpected::Other(s) => s@,
    }
}

impl Unexpected {
    /// Names the unexpected value as an error message does.
    pub fn describe(&self) -> (r: String)
        ensures
            r@ == unexpected_text(*self),
    {
        match self {
            Unexpected::Bool(b) => enclose("boolean `", if *b { "true" } else { "false" }, "`"),
            Unexpected::Unsigned(v) => enclose("integer `", decimal(*v as i128).as_str(), "`"),
            Unexpected::Signed(v) => enclose("integer `", decimal(*v as i128).as_str(), "`"),
            Unexpected::Float(_, text) => enclose("floating point `", text.as_str(), "`"),
            Unexpected::Char(c) => enclose("character `", char_string(*c).as_str(), "`"),
            Unexpected::Str(s) => String::from_str("string ").concat(quoted(s.as_str()).as_str()),
            Unexpected::Bytes(_) => String::from_str("byte array"),
            Unexpected::Unit => String::from_str("unit value"),
            Unexpected::Option => String::from_str("Option value"),
            Unexpected::NewtypeStruct => String::from_str("newtype struct"),
            Unexpected::Sequence => String::from_str("sequence"),
            Unexpected::Mapping => String::from_str("map"),
            Unexpected::Enum => String::from_str("enum"),
            Unexpected::UnitVariant => String::from_str("unit variant"),
            Unexpected::NewtypeVariant => String::from_str("newtype variant"),
            Unexpected::TupleVariant => String::from_str("tuple variant"),
            Unexpected::StructVariant => String::from_str("struct variant"),
            Unexpected::Other(s) => s.clone(),
        }
    }
}

/// Where the error of an adapted call came from.
pub enum ErrorSource<E, A> {
    /// The backend's own error, captured in the adapter's slot when the
    /// backend failed.
    Backend(E),
    /// The signal that the adapted call returned, for the caller to rebuild
    /// in the backend's error type.
    Adapter(A),
}

/// A non-generic classification of a deserialization error.
#[derive(Clone, Debug, PartialEq)]
pub enum ErrorCode {
    /// A free-text message.
    Custom(String),
    /// The input held a value of the wrong type; the second field says what
    /// was expected.
    InvalidType(Unexpected, String),
    /// The input held a value of the right type but the wrong value.
    InvalidValue(Unexpected, String),
    /// A sequence or map had too many or too few elements.
    InvalidLength(usize, String),
    /// An enum variant with an unknown name, and the names that are known.
    UnknownVariant(String, &'static [&'static str]),
    /// A struct field with an unknown name, and the names that are known.
    UnknownField(String, &'static [&'static str]),
    /// A required struct field was absent.
    MissingField(&'static str),
    /// A struct field was present more than once.
    DuplicateField(&'static str),
}

/// A name between backticks.
pub open spec fn ticked(s: Seq<char>) -> Seq<char> {
    "`"@ + s + "`"@
}

/// The names between backticks, separated by `, `.
pub open spec fn ticked_list(names: Seq<&str>) -> Seq<char>
    decreases names.len(),
{
    if names.len() == 0 {
        Seq::empty()
    } else if names.len() == 1 {
        ticked(names[0]@)
    } else {
        ticked_list(names.drop_last()) + ", "@ + ticked(names.last()@)
    }
}

/// How a non-empty list of admissible names is offered in a message.
pub open spec fn one_of_text(names: Seq<&str>) -> Seq<char> {
    if names.len() == 1 {
        ticked(names[0]@)
    } else if names.len() == 2 {
        ticked(names[0]@) + " or "@ + ticked(names[1]@)
    } else {
        "one of "@ + ticked_list(names)
    }
}

/// The message of a classified error, worded as serde's default
/// constructors of `serde::de::Error` word it.
pub open spec fn code_text(code: ErrorCode) -> Seq<char> {
    match code {
        ErrorCode::Custom(msg) => msg@,
        ErrorCode::InvalidType(u, exp) => "invalid type: "@ + unexpected_text(u) + ", expected "@
            + exp@,
        ErrorCode::InvalidValue(u, exp) => "invalid value: "@ + unexpected_text(u)
            + ", expected "@ + exp@,
        ErrorCode::InvalidLength(len, exp) => "invalid length "@ + decimal_text(len as int)
            + ", expected "@ + exp@,
        ErrorCode::UnknownVariant(name, names) => if names@.len() == 0 {
            "unknown variant `"@ + name@ + "`, there are no variants"@
        } else {
            "unknown variant `"@ + name@ + "`, expected "@ + one_of_text(names@)
        },
        ErrorCode::UnknownField(name, names) => if names@.len() == 0 {
            "unknown field `"@ + name@ + "`, there are no fields"@
        } else {
            "unknown field `"@ + name@ + "`, expected "@ + one_of_text(names@)
        },
        ErrorCode::MissingField(name) => "missing field `"@ + name@ + "`"@,
        ErrorCode::DuplicateField(name) => "duplicate field `"@ + name@ + "`"@,
    }
}

/// The message of an error that carries no information.
pub open spec fn marker_text() -> Seq<char> {
    "an error occurred during dynamic (de)serialization"@
}

/// The message of an error carrier whose contents are `code`.
pub open spec fn error_text(code: Option<ErrorCode>) -> Seq<char> {
    match code {
        Some(c) => code_text(c),
        None => marker_text(),
    }
}

/// Offers a non-empty list of admissible names.
fn one_of(names: &[&str]) -> (r: String)
    requires
        names@.len() > 0,
    ensures
        r@ == one_of_text(names@),
{
    if names.len() == 1 {
        enclose("`", names[0], "`")
    } else if names.len() == 2 {
        enclose("`", names[0], "`").concat(" or ").concat(enclose("`", names[1], "`").as_str())
    } else {
        let mut out = String::from_str("one of ");
        let mut i: usize = 0;
        assert(names@.take(0) =~= Seq::<&str>::empty());
        assert(out@ =~= "one of "@ + ticked_list(names@.take(0)));
        while i < names.len()
            invariant
                0 <= i <= names@.len(),
                out@ == "one of "@ + ticked_list(names@.take(i as int)),
            decreases names@.len() - i,
        {
            let item = enclose("`", names[i], "`");
            if i > 0 {
                out.append(", ");
            }
            out.append(item.as_str());
            assert(names@.take(i + 1).drop_last() =~= names@.take(i as int));
            assert(names@.take(i + 1).last() == names@[i as int]);
            assert(out@ =~= "one of "@ + ticked_list(names@.take(i + 1)));
            i += 1;
        }
        assert(names@.take(names@.len() as int) =~= names@);
        out
    }
}

impl ErrorCode {
    /// The message of this error.
    pub fn message(&self) -> (r: String)
        ensures
            r@ == code_text(*self),
    {
        match self {
            ErrorCode::Custom(msg) => msg.clone(),
            ErrorCode::InvalidType(u, exp) => String::from_str("invalid type: ").concat(
                u.describe().as_str(),
            ).concat(", expected ").concat(exp.as_str()),
            ErrorCode::InvalidValue(u, exp) => String::from_str("invalid value: ").concat(
                u.describe().as_str(),
            ).concat(", expected ").concat(exp.as_str()),
            ErrorCode::InvalidLength(len, exp) => String::from_str("invalid length ").concat(
                decimal(*len as i128).as_str(),
            ).concat(", expected ").concat(exp.as_str()),
            ErrorCode::UnknownVariant(name, names) => if names.len() == 0 {
                enclose("unknown variant `", name.as_str(), "`, there are no variants")
            } else {
                enclose("unknown variant `", name.as_str(), "`, expected ").concat(
                    one_of(names).as_str(),
                )
            },
            ErrorCode::UnknownField(name, names) => if names.len() == 0 {
                enclose("unknown field `", name.as_str(), "`, there are no fields")
            } else {
                enclose("unknown field `", name.as_str(), "`, expected ").concat(
                    one_of(names).as_str(),
                )
            },
            ErrorCode::MissingField(name) => enclose("missing field `", name, "`"),
            ErrorCode::DuplicateField(name) => enclose("duplicate field `", name, "`"),
        }
    }
}

/// An error of a dynamic serialization or deserialization.
///
/// It holds the classified error that the failing side reported, or nothing
/// at all (a marker that only says that something failed).
#[derive(Debug)]
pub struct Error {
    code: Option<Box<ErrorCode>>,
}

impl View for Error {
    type V = Option<ErrorCode>;

    closed spec fn view(&self) -> Option<ErrorCode> {
        match self.code {
            Some(c) => Some(*c),
            None => None,
        }
    }
}

impl Default for Error {
    /// The marker error, which carries no information.
    fn default() -> (r: Self)
        ensures
            r@ is None,
    {
        Error { code: None }
    }
}

impl Error {
    /// An error that carries the classified error `code`.
    pub fn from_code(code: ErrorCode) -> (r: Error)
        ensures
            r@ == Some(code),
    {
        Error { code: Some(Box::new(code)) }
    }

    /// An error with a free-text message.
    pub fn custom(msg: String) -> (r: Error)
        ensures
            r@ == Some(ErrorCode::Custom(msg)),
    {
        Error::from_code(ErrorCode::Custom(msg))
    }

    /// The input held `unexp` where a value of another type, described by
    /// `exp`, was expected.
    pub fn invalid_type(unexp: Unexpected, exp: String) -> (r: Error)
        ensures
            r@ == Some(ErrorCode::InvalidType(unexp, exp)),
    {
        Error::from_code(ErrorCode::InvalidType(unexp, exp))
    }

    /// The input held `unexp`, of the right type, where a value described by
    /// `exp` was expected.
    pub fn invalid_value(unexp: Unexpected, exp: String) -> (r: Error)
        ensures
            r@ == Some(ErrorCode::InvalidValue(unexp, exp)),
    {
        Error::from_code(ErrorCode::InvalidValue(unexp, exp))
    }

    /// A sequence or map held `len` elements where `exp` describes what was
    /// expected.
    pub fn invalid_length(len: usize, exp: String) -> (r: Error)
        ensures
            r@ == Some(ErrorCode::InvalidLength(len, exp)),
    {
        Error::from_code(ErrorCode::InvalidLength(len, exp))
    }

    /// The input named the variant `variant`, which is not among `expected`.
    pub fn unknown_variant(variant: String, expected: &'static [&'static str]) -> (r: Error)
        ensures
            r@ == Some(ErrorCode::UnknownVariant(variant, expected)),
    {
        Error::from_code(ErrorCode::UnknownVariant(variant, expected))
    }

    /// The input named the field `field`, which is not among `expected`.
    pub fn unknown_field(field: String, expected: &'static [&'static str]) -> (r: Error)
        ensures
            r@ == Some(ErrorCode::UnknownField(field, expected)),
    {
        Error::from_code(ErrorCode::UnknownField(field, expected))
    }

    /// The required field `field` was absent from the input.
    pub fn missing_field(field: &'static str) -> (r: Error)
        ensures
            r@ == Some(ErrorCode::MissingField(field)),
    {
        Error::from_code(ErrorCode::MissingField(field))
    }

    /// The field `field` occurred more than once in the input.
    pub fn duplicate_field(field: &'static str) -> (r: Error)
        ensures
            r@ == Some(ErrorCode::DuplicateField(field)),
    {
        Error::from_code(ErrorCode::DuplicateField(field))
    }

    /// The classified error to rebuild in a concrete backend: the one that
    /// this error carries, or, for the marker, a free-text error with the
    /// marker's message.
    pub fn into_code(self) -> (r: ErrorCode)
        ensures
            self@ is Some ==> r == self@->Some_0,
            self@ is None ==> r is Custom && r->Custom_0@ == marker_text(),
    {
        match self.code {
            Some(code) => *code,
            None => ErrorCode::Custom(String::from_str("an error occurred during dynamic (de)serialization")),
        }
    }

    /// The message of this error.
    pub fn message(&self) -> (r: String)
        ensures
            r@ == error_text(self@),
    {
        match &self.code {
            Some(code) => code.message(),
            None => String::from_str("an error occurred during dynamic (de)serialization"),
        }
    }
}

/// A classified error renders exactly as the free-text error that a backend
/// without classification builds from the same message, so that the text a
/// caller sees is the same on the erased path and on the direct one.
pub proof fn lemma_classified_renders_as_custom(code: ErrorCode, msg: String)
    requires
        msg@ == code_text(code),
    ensures
        error_text(Some(code)) == error_text(Some(ErrorCode::Custom(msg))),
{
}

} // verus!

//! A single owned, typed scalar handle.

use vstd::prelude::*;
use vstd::string::StringExecFns;
use vstd::string::StringSliceAdditionalSpecFns;

verus! {

/// The typed content of one scalar handle.
pub enum ScalarValue {
    Null,
    Boolean(bool),
    Int8(i8),
    Int16(i16),
    Int32(i32),
    Int64(i64),
    UInt8(u8),
    UInt16(u16),
    UInt32(u32),
    UInt64(u64),
    /// A calendar date as a count of days.
    Date { days: i32 },
    /// A time of day in microseconds.
    Time { micros: i64 },
    TimestampSeconds { seconds: i64 },
    TimestampMilliseconds { millis: i64 },
    TimestampMicroseconds { micros: i64 },
    TimestampNanoseconds { nanos: i64 },
    /// An arbitrary byte string.
    Blob(Vec<u8>),
}

impl ScalarValue {
    /// Whether the engine can hand this scalar out as a 64-bit integer.
    pub open spec fn int64_compatible(self) -> bool {
        match self {
            ScalarValue::Boolean(_) => true,
            ScalarValue::Int8(_) => true,
            ScalarValue::Int16(_) => true,
            ScalarValue::Int32(_) => true,
            ScalarValue::Int64(_) => true,
            ScalarValue::UInt8(_) => true,
            ScalarValue::UInt16(_) => true,
            ScalarValue::UInt32(_) => true,
            ScalarValue::UInt64(v) => v <= i64::MAX,
            _ => false,
        }
    }

    /// The scalar read as a 64-bit integer.
    pub open spec fn as_int64(self) -> int {
        match self {
            ScalarValue::Boolean(b) => if b { 1 } else { 0 },
            ScalarValue::Int8(v) => v as int,
            ScalarValue::Int16(v) => v as int,
            ScalarValue::Int32(v) => v as int,
            ScalarValue::Int64(v) => v as int,
            ScalarValue::UInt8(v) => v as int,
            ScalarValue::UInt16(v) => v as int,
            ScalarValue::UInt32(v) => v as int,
            ScalarValue::UInt64(v) => v as int,
            _ => 0,
        }
    }

    /// Whether this scalar has an unambiguous text rendering: the null
    /// marker, a boolean, or a decimal integer. Calendar scalars and blobs
    /// render in engine-defined formats that this layer does not define.
    pub open spec fn displayable(self) -> bool {
        match self {
            ScalarValue::Null => true,
            ScalarValue::Boolean(_) => true,
            ScalarValue::Int8(_) => true,
            ScalarValue::Int16(_) => true,
            ScalarValue::Int32(_) => true,
            ScalarValue::Int64(_) => true,
            ScalarValue::UInt8(_) => true,
            ScalarValue::UInt16(_) => true,
            ScalarValue::UInt32(_) => true,
            ScalarValue::UInt64(_) => true,
            _ => false,
        }
    }

    /// The text rendering of a displayable scalar.
    pub open spec fn display_text(self) -> Seq<char> {
        match self {
            ScalarValue::Null => seq!['N', 'U', 'L', 'L'],
            ScalarValue::Boolean(b) => if b {
                seq!['t', 'r', 'u', 'e']
            } else {
                seq!['f', 'a', 'l', 's', 'e']
            },
            ScalarValue::Int8(v) => decimal_of_int(v as int),
            ScalarValue::Int16(v) => decimal_of_int(v as int),
            ScalarValue::Int32(v) => decimal_of_int(v as int),
            ScalarValue::Int64(v) => decimal_of_int(v as int),
            ScalarValue::UInt8(v) => decimal_of(v as nat),
            ScalarValue::UInt16(v) => decimal_of(v as nat),
            ScalarValue::UInt32(v) => decimal_of(v as nat),
            ScalarValue::UInt64(v) => decimal_of(v as nat),
            _ => Seq::empty(),
        }
    }

    /// Whether this scalar occupies one fixed-width word of a vector's buffer.
    pub open spec fn fits_word(self) -> bool {
        match self {
            ScalarValue::Blob(_) => false,
            _ => true,
        }
    }

    /// The word a vector's buffer holds for this scalar: the value in two's
    /// complement, truncated to 64 bits. The null scalar's word is zero; its
    /// nullness lives in the validity bitmap, not in the buffer.
    pub open spec fn as_word(self) -> u64 {
        match self {
            ScalarValue::Null => 0u64,
            ScalarValue::Boolean(b) => if b { 1u64 } else { 0u64 },
            ScalarValue::Int8(v) => v as u64,
            ScalarValue::Int16(v) => v as u64,
            ScalarValue::Int32(v) => v as u64,
            ScalarValue::Int64(v) => v as u64,
            ScalarValue::UInt8(v) => v as u64,
            ScalarValue::UInt16(v) => v as u64,
            ScalarValue::UInt32(v) => v as u64,
            ScalarValue::UInt64(v) => v,
            ScalarValue::Date { days } => days as u64,
            ScalarValue::Time { micros } => micros as u64,
            ScalarValue::TimestampSeconds { seconds } => seconds as u64,
            ScalarValue::TimestampMilliseconds { millis } => millis as u64,
            ScalarValue::TimestampMicroseconds { micros } => micros as u64,
            ScalarValue::TimestampNanoseconds { nanos } => nanos as u64,
            ScalarValue::Blob(_) => 0u64,
        }
    }
}

/// One owned scalar handle. It is never shared or cloned; once released, the
/// handle is replaced by a sentinel so a second release cannot touch the
/// engine again.
pub struct Value {
    handle: Option<ScalarValue>,
}

impl Value {
    /// The scalar this handle holds, or `None` once the handle was released.
    pub closed spec fn scalar(&self) -> Option<ScalarValue> {
        self.handle
    }

    pub open spec fn is_released(&self) -> bool {
        self.scalar() is None
    }

    /// Whether this handle holds a scalar equal to `s`.
    pub open spec fn holds(&self, s: ScalarValue) -> bool {
        self.scalar() == Some(s)
    }

    pub fn null() -> (v: Value)
        ensures
            v.holds(ScalarValue::Null),
    {
        Value { handle: Some(ScalarValue::Null) }
    }

    pub fn date_from_day_count(value: i32) -> (v: Value)
        ensures
            v.holds(ScalarValue::Date { days: value }),
    {
        Value { handle: Some(ScalarValue::Date { days: value }) }
    }

    pub fn time_from_ms(value: i64) -> (v: Value)
        ensures
            v.holds(ScalarValue::Time { micros: value }),
    {
        Value { handle: Some(ScalarValue::Time { micros: value }) }
    }

    pub fn timestamp_s(seconds: i64) -> (v: Value)
        ensures
            v.holds(ScalarValue::TimestampSeconds { seconds }),
    {
        Value { handle: Some(ScalarValue::TimestampSeconds { seconds }) }
    }

    pub fn timestamp_ms(millis: i64) -> (v: Value)
        ensures
            v.holds(ScalarValue::TimestampMilliseconds { millis }),
    {
        Value { handle: Some(ScalarValue::TimestampMilliseconds { millis }) }
    }

    pub fn timestamp_us(micros: i64) -> (v: Value)
        ensures
            v.holds(ScalarValue::TimestampMicroseconds { micros }),
    {
        Value { handle: Some(ScalarValue::TimestampMicroseconds { micros }) }
    }

    pub fn timestamp_ns(nanos: i64) -> (v: Value)
        ensures
            v.holds(ScalarValue::TimestampNanoseconds { nanos }),
    {
        Value { handle: Some(ScalarValue::TimestampNanoseconds { nanos }) }
    }

    /// Wraps a byte string. A text value is stored the same way: as its bytes.
    pub fn from_bytes(data: &[u8]) -> (v: Value)
        ensures
            v.scalar() matches Some(s) && s matches ScalarValue::Blob(b) && b@ == data@,
    {
        Value { handle: Some(ScalarValue::Blob(vstd::slice::slice_to_vec(data))) }
    }

    /// Wraps a text value, stored as its bytes.
    pub fn from_text(data: &str) -> (v: Value)
        ensures
            v.scalar() matches Some(s) && s matches ScalarValue::Blob(b) && b@
                == data.spec_bytes(),
    {
        Value::from_bytes(data.as_bytes())
    }

    /// Converts an optional value; `None` maps to the null scalar.
    pub fn from_option<T: IntoValue>(value: Option<T>) -> (v: Value)
        ensures
            match value {
                Some(x) => v.holds(x.as_scalar()),
                None => v.holds(ScalarValue::Null),
            },
    {
        match value {
            Some(x) => x.into_value(),
            None => Value::null(),
        }
    }

    /// Reads the scalar as a 64-bit integer. Only integer-compatible scalars
    /// may be read this way; the engine leaves anything else undefined, so the
    /// precondition rules it out.
    pub fn to_int64(&self) -> (r: i64)
        requires
            self.scalar() matches Some(s) && s.int64_compatible(),
        ensures
            r == self.scalar()->Some_0.as_int64(),
    {
        match &self.handle {
            Some(s) => match s {
                ScalarValue::Boolean(b) => if *b { 1 } else { 0 },
                ScalarValue::Int8(v) => *v as i64,
                ScalarValue::Int16(v) => *v as i64,
                ScalarValue::Int32(v) => *v as i64,
                ScalarValue::Int64(v) => *v,
                ScalarValue::UInt8(v) => *v as i64,
                ScalarValue::UInt16(v) => *v as i64,
                ScalarValue::UInt32(v) => *v as i64,
                ScalarValue::UInt64(v) => *v as i64,
                _ => 0,
            },
            None => 0,
        }
    }

    /// Renders the scalar as text: the null marker, a boolean, or the decimal
    /// digits of an integer. The result is an owned string; no transient
    /// buffer of the engine outlives this call.
    pub fn display_string(&self) -> (r: String)
        requires
            self.scalar() matches Some(s) && s.displayable(),
        ensures
            r@ == self.scalar()->Some_0.display_text(),
    {
        match &self.handle {
            Some(s) => match s {
                ScalarValue::Null => {
                    proof {
                        reveal_strlit("NULL");
                    }
                    "NULL".to_owned()
                },
                ScalarValue::Boolean(b) => {
                    proof {
                        reveal_strlit("true");
                        reveal_strlit("false");
                    }
                    if *b {
                        "true".to_owned()
                    } else {
                        "false".to_owned()
                    }
                },
                ScalarValue::Int8(v) => i64_decimal(*v as i64),
                ScalarValue::Int16(v) => i64_decimal(*v as i64),
                ScalarValue::Int32(v) => i64_decimal(*v as i64),
                ScalarValue::Int64(v) => i64_decimal(*v),
                ScalarValue::UInt8(v) => u64_decimal(*v as u64),
                ScalarValue::UInt16(v) => u64_decimal(*v as u64),
                ScalarValue::UInt32(v) => u64_decimal(*v as u64),
                ScalarValue::UInt64(v) => u64_decimal(*v),
                _ => vstd::pervasive::unreached(),
            },
            None => vstd::pervasive::unreached(),
        }
    }

    /// Releases the handle. Releasing is idempotent: the first call replaces
    /// the handle with the released sentinel and a second call finds the
    /// sentinel and touches nothing.
    pub fn release(&mut self)
        ensures
            final (self).is_released(),
    {
        self.handle = None;
    }

    /// The word a vector's buffer holds for this scalar, for assigning the
    /// value as a vector's constant content.
    pub(crate) fn word(&self) -> (r: u64)
        requires
            self.scalar() matches Some(s) && s.fits_word(),
        ensures
            r == self.scalar()->Some_0.as_word(),
    {
        match &self.handle {
            Some(s) => match s {
                ScalarValue::Null => 0u64,
                ScalarValue::Boolean(b) => if *b { 1u64 } else { 0u64 },
                ScalarValue::Int8(v) => *v as u64,
                ScalarValue::Int16(v) => *v as u64,
                ScalarValue::Int32(v) => *v as u64,
                ScalarValue::Int64(v) => *v as u64,
                ScalarValue::UInt8(v) => *v as u64,
                ScalarValue::UInt16(v) => *v as u64,
                ScalarValue::UInt32(v) => *v as u64,
                ScalarValue::UInt64(v) => *v,
                ScalarValue::Date { days } => *days as u64,
                ScalarValue::Time { micros } => *micros as u64,
                ScalarValue::TimestampSeconds { seconds } => *seconds as u64,
                ScalarValue::TimestampMilliseconds { millis } => *millis as u64,
                ScalarValue::TimestampMicroseconds { micros } => *micros as u64,
                ScalarValue::TimestampNanoseconds { nanos } => *nanos as u64,
                ScalarValue::Blob(_) => 0u64,
            },
            None => 0u64,
        }
    }

    /// Whether the scalar is null. Null-ness matters when the value is
    /// assigned as a vector's constant content: the one constant row is then
    /// marked invalid.
    pub fn is_null_value(&self) -> (r: bool)
        requires
            !self.is_released(),
        ensures
            r == (self.scalar() == Some(ScalarValue::Null)),
    {
        match &self.handle {
            Some(s) => matches!(s, ScalarValue::Null),
            None => false,
        }
    }
}

/// The character for one decimal digit.
pub open spec fn digit_char(d: nat) -> char {
    if d == 0 {
        '0'
    } else if d == 1 {
        '1'
    } else if d == 2 {
        '2'
    } else if d == 3 {
        '3'
    } else if d == 4 {
        '4'
    } else if d == 5 {
        '5'
    } else if d == 6 {
        '6'
    } else if d == 7 {
        '7'
    } else if d == 8 {
        '8'
    } else {
        '9'
    }
}

/// The decimal rendering of a natural number, most significant digit first.
pub open spec fn decimal_of(n: nat) -> Seq<char>
    decreases n,
{
    if n < 10 {
        seq![digit_char(n)]
    } else {
        decimal_of(n / 10).push(digit_char(n % 10))
    }
}

/// The decimal rendering of an integer: a leading minus sign for negative
/// values, then the magnitude's digits.
pub open spec fn decimal_of_int(v: int) -> Seq<char> {
    if v < 0 {
        seq!['-'] + decimal_of((-v) as nat)
    } else {
        decimal_of(v as nat)
    }
}

fn digit_str(d: u8) -> (r: &'static str)
    requires
        d < 10,
    ensures
        r@ == seq![digit_char(d as nat)],
{
    proof {
        reveal_strlit("0");
        reveal_strlit("1");
        reveal_strlit("2");
        reveal_strlit("3");
        reveal_strlit("4");
        reveal_strlit("5");
        reveal_strlit("6");
        reveal_strlit("7");
        reveal_strlit("8");
        reveal_strlit("9");
    }
    match d {
        0 => "0",
        1 => "1",
        2 => "2",
        3 => "3",
        4 => "4",
        5 => "5",
        6 => "6",
        7 => "7",
        8 => "8",
        _ => "9",
    }
}

fn push_decimal(s: &mut String, n: u64)
    ensures
        final (s)@ == old(s)@ + decimal_of(n as nat),
    decreases n,
{
    if n >= 10 {
        proof {
            assert(n / 10 < n) by (nonlinear_arith)
                requires
                    n >= 10,
            ;
        }
        push_decimal(s, n / 10);
    }
    let d = (n % 10) as u8;
    s.append(digit_str(d));
    proof {
        if n >= 10 {
            assert(decimal_of(n as nat) =~= decimal_of((n as nat) / 10) + seq![
                digit_char((n as nat) % 10),
            ]);
        }
    }
}

/// The decimal rendering of a 64-bit natural number as an owned string.
fn u64_decimal(n: u64) -> (r: String)
    ensures
        r@ == decimal_of(n as nat),
{
    let mut s = String::new();
    push_decimal(&mut s, n);
    proof {
        assert(s@ =~= decimal_of(n as nat));
    }
    s
}

/// The decimal rendering of a 64-bit integer, sign included.
fn i64_decimal(v: i64) -> (r: String)
    ensures
        r@ == decimal_of_int(v as int),
{
    let mut s = String::new();
    if v < 0 {
        proof {
            reveal_strlit("-");
        }
        s.append("-");
        let m: u64 = if v == i64::MIN {
            9223372036854775808u64
        } else {
            (-v) as u64
        };
        push_decimal(&mut s, m);
        proof {
            assert(s@ =~= decimal_of_int(v as int));
        }
    } else {
        push_decimal(&mut s, v as u64);
        proof {
            assert(s@ =~= decimal_of_int(v as int));
        }
    }
    s
}

/// Conversion of a plain value into an owned scalar handle.
pub trait IntoValue: Sized {
    /// The scalar the conversion produces.
    spec fn as_scalar(&self) -> ScalarValue;

    fn into_value(self) -> (v: Value)
        ensures
            v.holds(self.as_scalar()),
    ;
}

impl IntoValue for bool {
    open spec fn as_scalar(&self) -> ScalarValue {
        ScalarValue::Boolean(*self)
    }

    fn into_value(self) -> (v: Value) {
        Value { handle: Some(ScalarValue::Boolean(self)) }
    }
}

impl IntoValue for i8 {
    open spec fn as_scalar(&self) -> ScalarValue {
        ScalarValue::Int8(*self)
    }

    fn into_value(self) -> (v: Value) {
        Value { handle: Some(ScalarValue::Int8(self)) }
    }
}

impl IntoValue for i16 {
    open spec fn as_scalar(&self) -> ScalarValue {
        ScalarValue::Int16(*self)
    }

    fn into_value(self) -> (v: Value) {
        Value { handle: Some(ScalarValue::Int16(self)) }
    }
}

impl IntoValue for i32 {
    open spec fn as_scalar(&self) -> ScalarValue {
        ScalarValue::Int32(*self)
    }

    fn into_value(self) -> (v: Value) {
        Value { handle: Some(ScalarValue::Int32(self)) }
    }
}

impl IntoValue for i64 {
    open spec fn as_scalar(&self) -> ScalarValue {
        ScalarValue::Int64(*self)
    }

    fn into_value(self) -> (v: Value) {
        Value { handle: Some(ScalarValue::Int64(self)) }
    }
}

impl IntoValue for u8 {
    open spec fn as_scalar(&self) -> ScalarValue {
        ScalarValue::UInt8(*self)
    }

    fn into_value(self) -> (v: Value) {
        Value { handle: Some(ScalarValue::UInt8(self)) }
    }
}

impl IntoValue for u16 {
    open spec fn as_scalar(&self) -> ScalarValue {
        ScalarValue::UInt16(*self)
    }

    fn into_value(self) -> (v: Value) {
        Value { handle: Some(ScalarValue::UInt16(self)) }
    }
}

impl IntoValue for u32 {
    open spec fn as_scalar(&self) -> ScalarValue {
        ScalarValue::UInt32(*self)
    }

    fn into_value(self) -> (v: Value) {
        Value { handle: Some(ScalarValue::UInt32(self)) }
    }
}

impl IntoValue for u64 {
    open spec fn as_scalar(&self) -> ScalarValue {
        ScalarValue::UInt64(*self)
    }

    fn into_value(self) -> (v: Value) {
        Value { handle: Some(ScalarValue::UInt64(self)) }
    }
}

} // verus!

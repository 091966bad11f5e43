use vstd::prelude::*;

verus! {

/// A calendar date, as year, month (1-12) and day of month (1-31).
#[derive(Clone, Copy, Debug, PartialEq, Eq, Structural)]
pub struct Date {
    pub year: i32,
    pub month: u32,
    pub day: u32,
}

/// A time of day, down to the nanosecond.
#[derive(Clone, Copy, Debug, PartialEq, Eq, Structural)]
pub struct Time {
    pub hour: u32,
    pub minute: u32,
    pub second: u32,
    pub nanosecond: u32,
}

/// A date and a time of day, without a time zone.
#[derive(Clone, Copy, Debug, PartialEq, Eq, Structural)]
pub struct DateTime {
    pub date: Date,
    pub time: Time,
}

/// Whether `year` is a leap year of the proleptic Gregorian calendar.
pub open spec fn is_leap(year: i32) -> bool {
    year % 4 == 0 && (year % 100 != 0 || year % 400 == 0)
}

/// The number of days in a month (1-12) of a year.
pub open spec fn days_in_month(year: i32, month: u32) -> u32 {
    if month == 2 {
        if is_leap(year) {
            29
        } else {
            28
        }
    } else if month == 4 || month == 6 || month == 9 || month == 11 {
        30
    } else {
        31
    }
}

impl Date {
    /// The date exists in the calendar.
    pub open spec fn valid(self) -> bool {
        1 <= self.month <= 12 && 1 <= self.day <= days_in_month(self.year, self.month)
    }

    pub fn is_valid(&self) -> (r: bool)
        ensures
            r == self.valid(),
    {
        if self.month < 1 || self.month > 12 || self.day < 1 {
            return false;
        }
        let leap = self.year % 4 == 0 && (self.year % 100 != 0 || self.year % 400 == 0);
        let last: u32 = if self.month == 2 {
            if leap {
                29
            } else {
                28
            }
        } else if self.month == 4 || self.month == 6 || self.month == 9 || self.month == 11 {
            30
        } else {
            31
        };
        self.day <= last
    }
}

impl Time {
    /// The time exists on a clock; a nanosecond count from one second up
    /// stands for a leap second, only in the last second of a minute.
    pub open spec fn valid(self) -> bool {
        &&& self.hour < 24
        &&& self.minute < 60
        &&& self.second < 60
        &&& self.nanosecond < 2_000_000_000
        &&& self.nanosecond >= 1_000_000_000 ==> self.second == 59
    }

    pub fn is_valid(&self) -> (r: bool)
        ensures
            r == self.valid(),
    {
        self.hour < 24 && self.minute < 60 && self.second < 60 && self.nanosecond < 2_000_000_000
            && (self.nanosecond < 1_000_000_000 || self.second == 59)
    }
}

impl DateTime {
    pub open spec fn valid(self) -> bool {
        self.date.valid() && self.time.valid()
    }

    pub fn is_valid(&self) -> (r: bool)
        ensures
            r == self.valid(),
    {
        self.date.is_valid() && self.time.is_valid()
    }
}

/// A value of one of the SQL scalar types that a command can carry.
///
/// Floating-point payloads are held as their IEEE-754 bit patterns
/// (`f64::to_bits` for `Currency`, `f32::to_bits` for the others).
#[derive(Clone, Debug)]
pub enum DbValue {
    Binary(Vec<u8>),
    Byte(u8),
    Boolean(bool),
    Currency(u64),
    Date(Date),
    DateTime(DateTime),
    Decimal(u32),
    Double(u32),
    Guid(String),
    Int16(u16),
    Int32(u32),
    Int64(u64),
    SByte(i8),
    Single(u32),
    String(String),
    Time(Time),
    UInt16(u16),
    UInt32(u32),
    UInt64(u64),
    Xml(String),
}

/// The column value that the database driver receives for a bound parameter.
///
/// `F32` and `F64` hold IEEE-754 bit patterns; `Guid` holds the GUID as a
/// 128-bit integer.
#[derive(Clone, Debug)]
pub enum NativeValue {
    Binary(Vec<u8>),
    U8(u8),
    Bit(bool),
    F64(u64),
    F32(u32),
    Date(Date),
    DateTime(DateTime),
    Time(Time),
    Guid(u128),
    I16(i16),
    I32(i32),
    I64(i64),
    String(String),
}

/// What parsing a GUID string gives, as a 128-bit integer, or `None` where the
/// text is no GUID.
pub uninterp spec fn guid_of(s: Seq<char>) -> Option<u128>;

/// Text made of ASCII characters only, whose length in bytes is its length
/// in characters.
pub open spec fn ascii_text(s: Seq<char>) -> bool {
    forall|i: int| 0 <= i < s.len() ==> (s[i] as u32) < 128
}

/// Text that no GUID form can match: it is ASCII and its length is none of
/// the lengths of the simple (32), hyphenated (36), braced (38) and URN (45)
/// forms.
pub open spec fn off_guid_shape(s: Seq<char>) -> bool {
    ascii_text(s) && s.len() != 32 && s.len() != 36 && s.len() != 38 && s.len() != 45
}

/// Relies on `uuid::Uuid`'s `FromStr` (re-exported by tiberius), read back
/// with `Uuid::as_u128`: the outcome depends on the text alone, and an input
/// whose byte length is not 32, 36, 38 or 45 is refused before any digit is
/// read.
#[verifier::external_body]
fn parse_guid(s: &str) -> (r: Option<u128>)
    ensures
        r == guid_of(s@),
        off_guid_shape(s@) ==> r is None,
{
    s.parse::<tiberius::Uuid>().ok().map(|g| g.as_u128())
}

/// Two's-complement reinterpretation of a 16-bit pattern.
pub open spec fn wrap16(v: u16) -> i16 {
    if v <= 0x7fff {
        v as i16
    } else {
        (v - 0x1_0000) as i16
    }
}

/// Two's-complement reinterpretation of a 32-bit pattern.
pub open spec fn wrap32(v: u32) -> i32 {
    if v <= 0x7fff_ffff {
        v as i32
    } else {
        (v - 0x1_0000_0000) as i32
    }
}

/// Two's-complement reinterpretation of a 64-bit pattern.
pub open spec fn wrap64(v: u64) -> i64 {
    if v <= 0x7fff_ffff_ffff_ffff {
        v as i64
    } else {
        (v - 0x1_0000_0000_0000_0000) as i64
    }
}

/// Two's-complement reinterpretation of a signed byte as an unsigned one.
pub open spec fn byte_of(v: i8) -> u8 {
    if v >= 0 {
        v as u8
    } else {
        (v + 0x100) as u8
    }
}

impl NativeValue {
    /// Every date and time that the value holds exists.
    pub open spec fn wf(self) -> bool {
        match self {
            NativeValue::Date(d) => d.valid(),
            NativeValue::DateTime(d) => d.valid(),
            NativeValue::Time(t) => t.valid(),
            _ => true,
        }
    }
}

/// The GUID that a parse outcome stands for: a malformed GUID is the zero GUID.
pub open spec fn guid_or_zero(parsed: Option<u128>) -> u128 {
    match parsed {
        Some(g) => g,
        None => 0,
    }
}

/// The native column value that a `DbValue` binds as.
pub open spec fn bound(v: DbValue) -> NativeValue {
    match v {
        DbValue::Binary(b) => NativeValue::Binary(b),
        DbValue::Byte(b) => NativeValue::U8(b),
        DbValue::SByte(b) => NativeValue::U8(byte_of(b)),
        DbValue::Boolean(b) => NativeValue::Bit(b),
        DbValue::Currency(f) => NativeValue::F64(f),
        DbValue::Date(d) => NativeValue::Date(d),
        DbValue::DateTime(d) => NativeValue::DateTime(d),
        DbValue::Decimal(f) => NativeValue::F32(f),
        DbValue::Double(f) => NativeValue::F32(f),
        DbValue::Guid(s) => NativeValue::Guid(guid_or_zero(guid_of(s@))),
        DbValue::Int16(n) => NativeValue::I16(wrap16(n)),
        DbValue::UInt16(n) => NativeValue::I16(wrap16(n)),
        DbValue::Int32(n) => NativeValue::I32(wrap32(n)),
        DbValue::UInt32(n) => NativeValue::I32(wrap32(n)),
        DbValue::Int64(n) => NativeValue::I64(wrap64(n)),
        DbValue::UInt64(n) => NativeValue::I64(wrap64(n)),
        DbValue::Time(t) => NativeValue::Time(t),
        DbValue::Single(f) => NativeValue::F32(f),
        DbValue::String(s) => NativeValue::String(s),
        DbValue::Xml(s) => NativeValue::String(s),
    }
}

/// A GUID string that does not parse binds as the zero GUID, not as an error.
pub proof fn lemma_malformed_guid_binds_zero(s: String)
    requires
        guid_of(s@) is None,
    ensures
        bound(DbValue::Guid(s)) == NativeValue::Guid(0),
{
}

/// The GUID to bind for a parse outcome: the parsed GUID, or zero where the
/// text did not parse.
pub fn guid_value(parsed: Option<u128>) -> (r: u128)
    ensures
        r == guid_or_zero(parsed),
{
    match parsed {
        Some(g) => g,
        None => 0,
    }
}

fn to_i16(v: u16) -> (r: i16)
    ensures
        r == wrap16(v),
{
    if v <= 0x7fff {
        v as i16
    } else {
        (v as i32 - 0x1_0000) as i16
    }
}

fn to_i32(v: u32) -> (r: i32)
    ensures
        r == wrap32(v),
{
    if v <= 0x7fff_ffff {
        v as i32
    } else {
        (v as i64 - 0x1_0000_0000) as i32
    }
}

fn to_i64(v: u64) -> (r: i64)
    ensures
        r == wrap64(v),
{
    if v <= 0x7fff_ffff_ffff_ffff {
        v as i64
    } else {
        (v as i128 - 0x1_0000_0000_0000_0000) as i64
    }
}

fn to_u8(v: i8) -> (r: u8)
    ensures
        r == byte_of(v),
{
    if v >= 0 {
        v as u8
    } else {
        (v as i16 + 0x100) as u8
    }
}

impl DbValue {
    /// Every date and time that the value holds exists.
    pub open spec fn wf(self) -> bool {
        match self {
            DbValue::Date(d) => d.valid(),
            DbValue::DateTime(d) => d.valid(),
            DbValue::Time(t) => t.valid(),
            _ => true,
        }
    }

    /// Converts the value into the column value that the driver binds.
    ///
    /// Signed and unsigned integers of one width both bind as the signed
    /// column of that width, reinterpreting the bits; a signed byte binds as
    /// an unsigned byte the same way; a GUID that does not parse binds as the
    /// zero GUID.
    pub fn into_sql(self) -> (r: NativeValue)
        ensures
            r == bound(self),
            self.wf() ==> r.wf(),
            self is Guid && off_guid_shape(self->Guid_0@) ==> r == NativeValue::Guid(0),
    {
        match self {
            DbValue::Binary(b) => NativeValue::Binary(b),
            DbValue::Byte(b) => NativeValue::U8(b),
            DbValue::SByte(b) => NativeValue::U8(to_u8(b)),
            DbValue::Boolean(b) => NativeValue::Bit(b),
            DbValue::Currency(f) => NativeValue::F64(f),
            DbValue::Date(d) => NativeValue::Date(d),
            DbValue::DateTime(d) => NativeValue::DateTime(d),
            DbValue::Decimal(f) => NativeValue::F32(f),
            DbValue::Double(f) => NativeValue::F32(f),
            DbValue::Guid(s) => NativeValue::Guid(guid_value(parse_guid(s.as_str()))),
            DbValue::Int16(n) => NativeValue::I16(to_i16(n)),
            DbValue::UInt16(n) => NativeValue::I16(to_i16(n)),
            DbValue::Int32(n) => NativeValue::I32(to_i32(n)),
            DbValue::UInt32(n) => NativeValue::I32(to_i32(n)),
            DbValue::Int64(n) => NativeValue::I64(to_i64(n)),
            DbValue::UInt64(n) => NativeValue::I64(to_i64(n)),
            DbValue::Time(t) => NativeValue::Time(t),
            DbValue::Single(f) => NativeValue::F32(f),
            DbValue::String(s) => NativeValue::String(s),
            DbValue::Xml(s) => NativeValue::String(s),
        }
    }
}

/// One parameter of a command. Only `value` takes part in execution: the
/// engine binds parameters by position, and carries `name`, `sql_type` and
/// `direction` along unread.
#[derive(Clone, Debug)]
pub struct CommandParameter {
    pub name: String,
    pub sql_type: String,
    pub direction: String,
    pub value: DbValue,
}

/// A parameterized SQL command: the query text and its parameters, bound in
/// order.
#[derive(Clone, Debug)]
pub struct CommandRequest {
    pub query: String,
    pub parameters: Vec<CommandParameter>,
}

/// One row of a record set: column names with their values, in column order.
pub type Row = Vec<(String, DbValue)>;

/// A row names each column once.
pub open spec fn row_wf(row: Row) -> bool {
    forall|i: int, j: int| 0 <= i < j < row@.len() ==> row@[i].0@ != row@[j].0@
}

/// The outcome of a command: whether it ran, a message, the rows of each
/// result set, one affected-row count per statement batch, and the values of
/// output parameters.
#[derive(Clone, Debug)]
pub struct CommandResponse {
    pub success: bool,
    pub message: String,
    pub record_sets: Vec<Vec<Row>>,
    pub row_affected: Vec<u64>,
    pub output: Vec<DbValue>,
}

impl CommandResponse {
    /// Each row of each record set names each column once.
    pub open spec fn wf(&self) -> bool {
        forall|k: int, m: int|
            0 <= k < self.record_sets@.len() && 0 <= m < self.record_sets@[k]@.len() ==> row_wf(
                #[trigger] self.record_sets@[k]@[m],
            )
    }

    /// A successful response carrying the driver's affected-row counts, with
    /// no record sets, no output values and an empty message.
    pub fn succeeded(row_affected: Vec<u64>) -> (r: CommandResponse)
        ensures
            r.success,
            r.message@ == Seq::<char>::empty(),
            r.row_affected@ == row_affected@,
            r.record_sets@.len() == 0,
            r.output@.len() == 0,
            r.wf(),
    {
        CommandResponse {
            success: true,
            message: String::new(),
            record_sets: Vec::new(),
            row_affected,
            output: Vec::new(),
        }
    }

    /// A failed response carrying `message` and nothing else.
    pub fn failed(message: String) -> (r: CommandResponse)
        ensures
            !r.success,
            r.message@ == message@,
            r.row_affected@.len() == 0,
            r.record_sets@.len() == 0,
            r.output@.len() == 0,
            r.wf(),
    {
        CommandResponse {
            success: false,
            message,
            record_sets: Vec::new(),
            row_affected: Vec::new(),
            output: Vec::new(),
        }
    }
}

} // verus!

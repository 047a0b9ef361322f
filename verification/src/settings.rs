//! The settings that the supervisor and the front door read: rows of a
//! name, a text and a type, and what the rows that describe the serial port
//! add up to.

use crate::text::{copy_bytes, decimal_value, is_digit, lit, same_bytes};
use vstd::prelude::*;

verus! {

/// The name of the setting that holds the serial device's path.
pub const DEVICE_PATH: &'static str = "S_devicePath";

/// The name of the setting that holds the baud rate.
pub const DEVICE_BAUD: &'static str = "N_deviceBaud";

/// The name of the setting that says whether to connect at boot.
pub const START_ON_BOOT: &'static str = "B_startOnBoot";

/// The number that a text writes: an optional plus sign and decimal digits
/// that make a number no larger than the largest `u64`.
pub open spec fn number_of(text: Seq<u8>) -> Option<u64> {
    let digits = unsigned(text);
    if digits.len() > 0 && all_digits(digits) && decimal_value(digits) <= u64::MAX {
        Some(decimal_value(digits) as u64)
    } else {
        None
    }
}

/// A text without the plus sign that it may begin with.
pub open spec fn unsigned(text: Seq<u8>) -> Seq<u8> {
    if text.len() > 0 && text[0] == 43 {
        text.drop_first()
    } else {
        text
    }
}

/// Every byte of the text is a digit.
pub open spec fn all_digits(text: Seq<u8>) -> bool {
    forall|i: int| 0 <= i < text.len() ==> is_digit(#[trigger] text[i])
}

/// A number with more digits is no smaller.
proof fn lemma_decimal_value_grows(digits: Seq<u8>, k: int)
    requires
        0 <= k <= digits.len(),
        all_digits(digits),
    ensures
        decimal_value(digits.subrange(0, k)) <= decimal_value(digits),
    decreases digits.len() - k,
{
    if k < digits.len() {
        lemma_decimal_value_grows(digits, k + 1);
        assert(digits.subrange(0, k + 1).drop_last() == digits.subrange(0, k));
    } else {
        assert(digits.subrange(0, k) == digits);
    }
}

/// The number that a text writes.
pub fn parse_number(text: &[u8]) -> (r: Option<u64>)
    ensures
        r == number_of(text@),
{
    let start: usize = if text.len() > 0 && text[0] == 43 {
        1
    } else {
        0
    };
    let ghost digits = text@.subrange(start as int, text.len() as int);
    proof {
        if start == 1 {
            assert(digits == text@.drop_first());
        } else {
            assert(digits == text@);
        }
        assert(digits == unsigned(text@));
    }
    if start == text.len() {
        return None;
    }
    let mut acc: u64 = 0;
    let mut k: usize = start;
    assert(digits.subrange(0, 0).len() == 0);
    while k < text.len()
        invariant
            start <= k <= text.len(),
            digits == text@.subrange(start as int, text.len() as int),
            digits == unsigned(text@),
            forall|i: int| 0 <= i < k - start ==> is_digit(#[trigger] digits[i]),
            acc == decimal_value(digits.subrange(0, k - start)),
        decreases text.len() - k,
    {
        let b = text[k];
        if b < 48 || b > 57 {
            assert(!is_digit(digits[k - start]));
            return None;
        }
        let d: u64 = (b - 48) as u64;
        let ghost before = digits.subrange(0, k - start);
        let ghost after = digits.subrange(0, k - start + 1);
        assert(after.drop_last() == before);
        assert(after.last() == b);
        if acc > (u64::MAX - d) / 10 {
            proof {
                assert(decimal_value(after) == 10 * acc + d);
                assert(decimal_value(after) > u64::MAX);
                if all_digits(digits) {
                    lemma_decimal_value_grows(digits, k - start + 1);
                }
            }
            return None;
        }
        acc = acc * 10 + d;
        k = k + 1;
    }
    assert(digits.subrange(0, digits.len() as int) == digits);
    Some(acc)
}

/// One row of the settings.
#[derive(Debug, PartialEq, Eq)]
pub struct SettingRow {
    pub id: Vec<u8>,
    pub raw_value: Vec<u8>,
    pub row_type: u8,
    pub flag: Option<bool>,
    pub number: Option<u64>,
}

pub struct SettingRowView {
    pub id: Seq<u8>,
    pub raw_value: Seq<u8>,
    pub row_type: u8,
    pub flag: Option<bool>,
    pub number: Option<u64>,
}

impl View for SettingRow {
    type V = SettingRowView;

    open spec fn view(&self) -> SettingRowView {
        SettingRowView {
            id: self.id@,
            raw_value: self.raw_value@,
            row_type: self.row_type,
            flag: self.flag,
            number: self.number,
        }
    }
}

impl DeepView for SettingRow {
    type V = SettingRowView;

    open spec fn deep_view(&self) -> SettingRowView {
        self@
    }
}

/// The row that a name, a text and a type make. A row of type 1 is a flag,
/// set by the texts `1` and `true`; a row of type 2 is a number, 0 if the
/// text is empty.
pub open spec fn row_of(id: Seq<u8>, value: Seq<u8>, row_type: u8) -> SettingRowView {
    SettingRowView {
        id,
        raw_value: value,
        row_type,
        flag: if row_type == 1 {
            Some(value == lit("1") || value == lit("true"))
        } else {
            None
        },
        number: if row_type == 2 {
            if value.len() == 0 {
                Some(0)
            } else {
                number_of(value)
            }
        } else {
            None
        },
    }
}

/// What a row holds, by its type: a text, a flag, a number, or a fraction
/// that is kept as the text that writes it.
#[derive(Debug, PartialEq, Eq)]
pub enum SettingValue {
    Text { text: Vec<u8> },
    Flag { flag: bool },
    Number { number: u64 },
    Fraction { text: Vec<u8> },
}

pub enum SettingValueView {
    Text { text: Seq<u8> },
    Flag { flag: bool },
    Number { number: u64 },
    Fraction { text: Seq<u8> },
}

impl View for SettingValue {
    type V = SettingValueView;

    open spec fn view(&self) -> SettingValueView {
        match self {
            SettingValue::Text { text } => SettingValueView::Text { text: text@ },
            SettingValue::Flag { flag } => SettingValueView::Flag { flag: *flag },
            SettingValue::Number { number } => SettingValueView::Number { number: *number },
            SettingValue::Fraction { text } => SettingValueView::Fraction { text: text@ },
        }
    }
}

impl SettingRowView {
    /// What the row holds; nothing if its type is unknown or its text does
    /// not fit its type.
    pub open spec fn value(self) -> Option<SettingValueView> {
        if self.row_type == 0 {
            Some(SettingValueView::Text { text: self.raw_value })
        } else if self.row_type == 1 && self.flag is Some {
            Some(SettingValueView::Flag { flag: self.flag.unwrap() })
        } else if self.row_type == 2 && self.number is Some {
            Some(SettingValueView::Number { number: self.number.unwrap() })
        } else if self.row_type == 3 {
            Some(SettingValueView::Fraction { text: self.raw_value })
        } else {
            None
        }
    }
}

impl SettingRow {
    pub fn new(id: Vec<u8>, value: Vec<u8>, row_type: u8) -> (r: Self)
        ensures
            r@ == row_of(id@, value@, row_type),
    {
        let flag = if row_type == 1 {
            Some(
                same_bytes(value.as_slice(), "1".as_bytes()) || same_bytes(
                    value.as_slice(),
                    "true".as_bytes(),
                ),
            )
        } else {
            None
        };
        let number = if row_type == 2 {
            if value.len() == 0 {
                Some(0)
            } else {
                parse_number(value.as_slice())
            }
        } else {
            None
        };
        Self { id, raw_value: value, row_type, flag, number }
    }

    /// What the row holds.
    pub fn value(&self) -> (r: Option<SettingValue>)
        ensures
            match r {
                Some(value) => Some(value@),
                None => None,
            } == self@.value(),
    {
        if self.row_type == 0 {
            Some(SettingValue::Text { text: copy_bytes(self.raw_value.as_slice()) })
        } else if self.row_type == 1 {
            match self.flag {
                Some(flag) => Some(SettingValue::Flag { flag }),
                None => None,
            }
        } else if self.row_type == 2 {
            match self.number {
                Some(number) => Some(SettingValue::Number { number }),
                None => None,
            }
        } else if self.row_type == 3 {
            Some(SettingValue::Fraction { text: copy_bytes(self.raw_value.as_slice()) })
        } else {
            None
        }
    }
}

/// The index of the last row of that name, or -1.
pub open spec fn last_named(rows: Seq<SettingRowView>, id: Seq<u8>) -> int
    decreases rows.len(),
{
    if rows.len() == 0 {
        -1
    } else if rows.last().id == id {
        rows.len() - 1
    } else {
        last_named(rows.drop_last(), id)
    }
}

/// The index of the last row of that name.
pub fn find_setting(rows: &Vec<SettingRow>, id: &[u8]) -> (r: Option<usize>)
    ensures
        match r {
            Some(i) => i == last_named(rows.deep_view(), id@) && i < rows.len(),
            None => last_named(rows.deep_view(), id@) == -1,
        },
{
    let ghost all = rows.deep_view();
    let mut k: usize = rows.len();
    assert(all.subrange(0, k as int) == all);
    while k > 0
        invariant
            k <= rows.len(),
            all == rows.deep_view(),
            last_named(all, id@) == last_named(all.subrange(0, k as int), id@),
        decreases k,
    {
        let ghost upto = all.subrange(0, k as int);
        assert(upto.last() == all[k - 1]);
        assert(upto.drop_last() == all.subrange(0, k - 1));
        if same_bytes(rows[k - 1].id.as_slice(), id) {
            return Some(k - 1);
        }
        k = k - 1;
    }
    assert(all.subrange(0, 0).len() == 0);
    None
}

/// The serial port to connect to.
#[derive(Debug, PartialEq, Eq)]
pub struct ConnectionInfo {
    pub address: Vec<u8>,
    pub port: u32,
}

pub struct ConnectionInfoView {
    pub address: Seq<u8>,
    pub port: u32,
}

impl View for ConnectionInfo {
    type V = ConnectionInfoView;

    open spec fn view(&self) -> ConnectionInfoView {
        ConnectionInfoView { address: self.address@, port: self.port }
    }
}

impl ConnectionInfo {
    pub fn new(address: Vec<u8>, port: u32) -> (r: Self)
        ensures
            r@ == (ConnectionInfoView { address: address@, port }),
    {
        Self { address, port }
    }
}

/// The serial port that the settings describe: the path and the baud rate
/// are set, the path is not empty, and the rate is a number from 1 to the
/// largest `u32`.
pub open spec fn connection_of(rows: Seq<SettingRowView>) -> Option<ConnectionInfoView> {
    let path = last_named(rows, lit(DEVICE_PATH));
    let baud = last_named(rows, lit(DEVICE_BAUD));
    if 0 <= path < rows.len() && 0 <= baud < rows.len() && rows[path].raw_value.len() > 0
        && rows[baud].number is Some && 0 < rows[baud].number.unwrap() <= u32::MAX {
        Some(
            ConnectionInfoView {
                address: rows[path].raw_value,
                port: rows[baud].number.unwrap() as u32,
            },
        )
    } else {
        None
    }
}

/// The serial port that the settings describe.
pub fn connection_info(rows: &Vec<SettingRow>) -> (r: Option<ConnectionInfo>)
    ensures
        match r {
            Some(info) => Some(info@),
            None => None,
        } == connection_of(rows.deep_view()),
{
    let path = match find_setting(rows, DEVICE_PATH.as_bytes()) {
        Some(i) => i,
        None => {
            return None;
        },
    };
    let baud = match find_setting(rows, DEVICE_BAUD.as_bytes()) {
        Some(i) => i,
        None => {
            return None;
        },
    };
    if rows[path].raw_value.len() == 0 {
        return None;
    }
    match rows[baud].number {
        Some(n) => {
            if 0 < n && n <= 0xffff_ffff {
                Some(
                    ConnectionInfo::new(copy_bytes(rows[path].raw_value.as_slice()), n as u32),
                )
            } else {
                None
            }
        },
        None => None,
    }
}

} // verus!

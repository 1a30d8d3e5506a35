//! Byte counters that are kept in files, one decimal number to a file.
use std::path::PathBuf;
use vstd::prelude::*;
use vstd::std_specs::convert::IntoSpec;

verus! {

#[verifier::external_type_specification]
#[verifier::external_body]
pub struct ExPathBuf(PathBuf);

/// A counter source that reads the received and the transmitted bytes from
/// one file each.
pub struct FileCounterSource {
    rx_file: PathBuf,
    tx_file: PathBuf,
}

impl FileCounterSource {
    /// Creates the source for the counters in `rx_file` and `tx_file`.
    pub fn new<T: Into<PathBuf>>(rx_file: T, tx_file: T) -> (source: Self)
        ensures
            T::obeys_into_spec() ==> source.rx_path() == rx_file.into_spec(),
            T::obeys_into_spec() ==> source.tx_path() == tx_file.into_spec(),
    {
        FileCounterSource { rx_file: rx_file.into(), tx_file: tx_file.into() }
    }

    /// The file that holds the received bytes.
    pub closed spec fn rx_path(&self) -> PathBuf {
        self.rx_file
    }

    /// The file that holds the transmitted bytes.
    pub closed spec fn tx_path(&self) -> PathBuf {
        self.tx_file
    }

    /// Returns the file that holds the received bytes.
    pub fn rx_file(&self) -> (path: &PathBuf)
        ensures
            *path == self.rx_path(),
    {
        &self.rx_file
    }

    /// Returns the file that holds the transmitted bytes.
    pub fn tx_file(&self) -> (path: &PathBuf)
        ensures
            *path == self.tx_path(),
    {
        &self.tx_file
    }
}

/// Whether `byte` is an ASCII decimal digit.
pub open spec fn is_digit(byte: u8) -> bool {
    48 <= byte <= 57
}

/// The number that the decimal digits `digits` write.
pub open spec fn digits_value(digits: Seq<u8>) -> nat
    decreases digits.len(),
{
    if digits.len() == 0 {
        0
    } else {
        digits_value(digits.drop_last()) * 10 + (digits.last() - 48) as nat
    }
}

/// The digits of a counter file: its content without the plus sign that it
/// may start with.
pub open spec fn digits_of(content: Seq<u8>) -> Seq<u8> {
    if content.len() > 0 && content[0] == 43 {
        content.skip(1)
    } else {
        content
    }
}

/// The counter that `content` writes: one or more decimal digits, which may
/// follow a plus sign, with a value that fits 64 bits. Anything else, white
/// space included, writes no counter.
pub open spec fn counter_in(content: Seq<u8>) -> Option<u64> {
    let digits = digits_of(content);
    if digits.len() > 0 && (forall|i: int| 0 <= i < digits.len() ==> is_digit(#[trigger] digits[i]))
        && digits_value(digits) <= u64::MAX {
        Some(digits_value(digits) as u64)
    } else {
        None
    }
}

/// The value of a number only grows as digits are appended to it.
proof fn lemma_digits_value_grows(digits: Seq<u8>, shorter: int)
    requires
        0 <= shorter <= digits.len(),
        forall|i: int| 0 <= i < digits.len() ==> is_digit(#[trigger] digits[i]),
    ensures
        digits_value(digits.take(shorter)) <= digits_value(digits),
    decreases digits.len(),
{
    if shorter == digits.len() {
        assert(digits.take(shorter) =~= digits);
    } else {
        lemma_digits_value_grows(digits.drop_last(), shorter);
        assert(digits.drop_last().take(shorter) =~= digits.take(shorter));
    }
}

/// Reads the counter that `content` writes.
pub fn parse_counter(content: &[u8]) -> (counter: Option<u64>)
    ensures
        counter == counter_in(content@),
{
    let start: usize = if content.len() > 0 && content[0] == 43 {
        1
    } else {
        0
    };
    let ghost digits = digits_of(content@);
    if start == content.len() {
        return None;
    }
    let mut value: u64 = 0;
    let mut index: usize = start;
    while index < content.len()
        invariant
            start <= index <= content.len(),
            digits == content@.skip(start as int),
            digits == digits_of(content@),
            forall|i: int| 0 <= i < index - start ==> is_digit(#[trigger] digits[i]),
            value == digits_value(digits.take(index - start)),
        decreases content.len() - index,
    {
        let byte: u8 = content[index];
        assert(byte == digits[index - start]);
        if byte < 48 || byte > 57 {
            return None;
        }
        let ghost longer = digits.take(index - start + 1);
        assert(longer.drop_last() =~= digits.take(index - start));
        assert(longer.last() == byte);
        assert(digits_value(longer) == value * 10 + (byte - 48));
        let scaled: u64 = match value.checked_mul(10) {
            Some(scaled) => scaled,
            None => {
                proof {
                    if forall|i: int| 0 <= i < digits.len() ==> is_digit(#[trigger] digits[i]) {
                        lemma_digits_value_grows(digits, index - start + 1);
                    }
                }
                return None;
            },
        };
        value = match scaled.checked_add((byte - 48) as u64) {
            Some(sum) => sum,
            None => {
                proof {
                    if forall|i: int| 0 <= i < digits.len() ==> is_digit(#[trigger] digits[i]) {
                        lemma_digits_value_grows(digits, index - start + 1);
                    }
                }
                return None;
            },
        };
        index = index + 1;
    }
    assert(digits.take(index - start) =~= digits);
    Some(value)
}

/// The reading that a counter file gives. `content` is what the file holds,
/// or nothing where it could not be read. A file that cannot be read and a
/// file that writes no counter both read as zero.
pub fn counter_value(content: Option<&[u8]>) -> (value: u64)
    ensures
        value == match content {
            Some(bytes) => match counter_in(bytes@) {
                Some(counter) => counter,
                None => 0,
            },
            None => 0,
        },
{
    match content {
        Some(bytes) => match parse_counter(bytes) {
            Some(counter) => counter,
            None => 0,
        },
        None => 0,
    }
}

} // verus!

//! Turning register words into measurements.

use vstd::prelude::*;

use crate::consts::ERROR_SHORT_ANSWER;
use crate::errors::{ErrorView, PZEMError};
use crate::reader::{result_view, surface, surfaced, words_view};
use crate::transport::Word;

verus! {

/// The 32-bit value held by two registers, low word first.
pub open spec fn combine_spec(lo: Word, hi: Word) -> u32 {
    (hi as u32) << 16 | (lo as u32)
}

/// Joining two words puts each in its own half: the result is the upper
/// word times 65536 plus the lower word.
pub proof fn lemma_combine_is_positional(lo: Word, hi: Word)
    ensures
        combine_spec(lo, hi) == hi as int * 0x1_0000 + lo as int,
{
    assert(((hi as u32) << 16 | (lo as u32)) == (hi as u32) * 0x1_0000 + (lo as u32))
        by (bit_vector);
}

/// Joins the two words of a 32-bit register pair: `lo` is the word at the
/// lower address and supplies the low 16 bits.
pub fn combine(lo: Word, hi: Word) -> (value: u32)
    ensures
        value == combine_spec(lo, hi),
        value == hi as int * 0x1_0000 + lo as int,
{
    proof {
        lemma_combine_is_positional(lo, hi);
    }
    (hi as u32) << 16 | (lo as u32)
}

/// One reading of a meter, each quantity in the unit the meter counts in.
///
/// Volts, amperes, watts, hertz and the power factor follow by dividing by
/// 10, 1000, 10, 10 and 100; watt-hours are reported as they are.
#[derive(Debug, Clone, Copy, PartialEq, Eq, Structural)]
pub struct PZEMData {
    /// Voltage in tenths of a volt.
    pub decivolts: u16,
    /// Current in thousandths of an ampere.
    pub milliamps: u32,
    /// Power in tenths of a watt.
    pub deciwatts: u32,
    /// Energy in watt-hours.
    pub watt_hours: u32,
    /// Frequency in tenths of a hertz.
    pub decihertz: u16,
    /// Power factor in hundredths.
    pub power_factor_percent: u16,
}

/// The reading that the first nine words of an answer stand for.
pub open spec fn measurement(words: Seq<Word>) -> PZEMData
    recommends
        words.len() >= 9,
{
    PZEMData {
        decivolts: words[0],
        milliamps: combine_spec(words[1], words[2]),
        deciwatts: combine_spec(words[3], words[4]),
        watt_hours: combine_spec(words[5], words[6]),
        decihertz: words[7],
        power_factor_percent: words[8],
    }
}

impl PZEMData {
    /// Decodes the measurement block from the first nine words of an answer.
    pub fn from_words(words: &Vec<Word>) -> (data: PZEMData)
        requires
            words@.len() >= 9,
        ensures
            data == measurement(words@),
    {
        PZEMData {
            decivolts: words[0],
            milliamps: combine(words[1], words[2]),
            deciwatts: combine(words[3], words[4]),
            watt_hours: combine(words[5], words[6]),
            decihertz: words[7],
            power_factor_percent: words[8],
        }
    }
}

impl Default for PZEMData {
    fn default() -> (data: PZEMData)
        ensures
            data == (PZEMData {
                decivolts: 0,
                milliamps: 0,
                deciwatts: 0,
                watt_hours: 0,
                decihertz: 0,
                power_factor_percent: 0,
            }),
    {
        PZEMData {
            decivolts: 0,
            milliamps: 0,
            deciwatts: 0,
            watt_hours: 0,
            decihertz: 0,
            power_factor_percent: 0,
        }
    }
}

/// The error that reports an answer with too few words to decode.
pub open spec fn short_answer() -> ErrorView {
    ErrorView::Misc(ERROR_SHORT_ANSWER@)
}

/// What a read of one register gives its caller: the first word of the
/// answer, an error of its own where the answer is empty, or the failure
/// that ended the read, made permanent.
pub open spec fn word_verdict(read: Result<Seq<Word>, ErrorView>) -> Result<u16, ErrorView> {
    match read {
        Ok(words) => if words.len() >= 1 {
            Ok(words[0])
        } else {
            Err(short_answer())
        },
        Err(error) => Err(surfaced(error)),
    }
}

/// What a read of a register pair gives its caller: the 32-bit value of the
/// first two words, the second as its upper half, an error of its own where
/// the answer holds fewer than two, or the failure, made permanent.
pub open spec fn double_word_verdict(read: Result<Seq<Word>, ErrorView>) -> Result<u32, ErrorView> {
    match read {
        Ok(words) => if words.len() >= 2 {
            Ok(combine_spec(words[0], words[1]))
        } else {
            Err(short_answer())
        },
        Err(error) => Err(surfaced(error)),
    }
}

/// What a read of the measurement block gives its caller: the reading in
/// the first nine words, an error of its own where the answer holds fewer,
/// or the failure, made permanent.
pub open spec fn data_verdict(read: Result<Seq<Word>, ErrorView>) -> Result<PZEMData, ErrorView> {
    match read {
        Ok(words) => if words.len() >= 9 {
            Ok(measurement(words))
        } else {
            Err(short_answer())
        },
        Err(error) => Err(surfaced(error)),
    }
}

/// Decodes the result of reading one register.
pub fn decode_u16(read: Result<Vec<Word>, PZEMError>) -> (result: Result<u16, PZEMError>)
    ensures
        result_view(result) == word_verdict(words_view(read)),
{
    match read {
        Ok(words) => {
            if words.len() >= 1 {
                Ok(words[0])
            } else {
                Err(PZEMError::Misc(String::from_str(ERROR_SHORT_ANSWER)))
            }
        },
        Err(error) => Err(surface(&error)),
    }
}

/// Decodes the result of reading a register pair.
pub fn decode_u32(read: Result<Vec<Word>, PZEMError>) -> (result: Result<u32, PZEMError>)
    ensures
        result_view(result) == double_word_verdict(words_view(read)),
{
    match read {
        Ok(words) => {
            if words.len() >= 2 {
                Ok(combine(words[0], words[1]))
            } else {
                Err(PZEMError::Misc(String::from_str(ERROR_SHORT_ANSWER)))
            }
        },
        Err(error) => Err(surface(&error)),
    }
}

/// Decodes the result of reading the measurement block.
pub fn decode_data(read: Result<Vec<Word>, PZEMError>) -> (result: Result<PZEMData, PZEMError>)
    ensures
        result_view(result) == data_verdict(words_view(read)),
{
    match read {
        Ok(words) => {
            if words.len() >= 9 {
                Ok(PZEMData::from_words(&words))
            } else {
                Err(PZEMError::Misc(String::from_str(ERROR_SHORT_ANSWER)))
            }
        },
        Err(error) => Err(surface(&error)),
    }
}

} // verus!

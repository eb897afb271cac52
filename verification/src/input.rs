use vstd::prelude::*;

use crate::codec::dec_rep;
use crate::codec::decimal_bytes;
use crate::codec::parse_value;
use crate::codec::parse_value_spec;
use crate::codec::unexport_path_spec;
use crate::codec::value_path_for;
use crate::codec::value_path_of;
use crate::codec::Direction;
use crate::error::GpioError;
use crate::lifecycle::abs_line;
use crate::lifecycle::init_effect;
use crate::lifecycle::lemma_init_effect_decider;
use crate::lifecycle::reset_effect;
use crate::lifecycle::reset_write;
use crate::lifecycle::Pin;
use crate::plane::exported_after_write;
use crate::plane::lemma_same_can_write_trans;
use crate::plane::same_can_write;
use crate::plane::ControlPlane;

verus! {

/// What `is_high` returns for each outcome of the one-byte read of the
/// value entry point: a failed read is surfaced unmodified, a successful
/// one is parsed as ASCII `1` or `0`.
pub open spec fn high_outcome(read: Result<(usize, u8), GpioError>) -> Result<bool, GpioError> {
    match read {
        Ok((n_read, byte)) => parse_value_spec(n_read, byte),
        Err(e) => Err(e),
    }
}

/// What `is_low` returns for each outcome of the one-byte read: ASCII `0`
/// is low, ASCII `1` is not, anything else is malformed, and a failed
/// read is surfaced unmodified.
pub open spec fn low_outcome(read: Result<(usize, u8), GpioError>) -> Result<bool, GpioError> {
    match read {
        Ok((n_read, byte)) => if n_read == 1 && byte == ('0' as u8) {
            Ok(true)
        } else if n_read == 1 && byte == ('1' as u8) {
            Ok(false)
        } else {
            Err(GpioError::Malformed)
        },
        Err(e) => Err(e),
    }
}

/// Law: on one and the same read, `is_low` is the logical negation of
/// `is_high` when that succeeds, and propagates the identical error when
/// it does not.
pub proof fn lemma_low_negates_high(read: Result<(usize, u8), GpioError>)
    ensures
        high_outcome(read) matches Ok(v) ==> low_outcome(read) == Ok::<bool, GpioError>(!v),
        high_outcome(read) matches Err(e) ==> low_outcome(read) == Err::<bool, GpioError>(e),
{
}

/// A live input line: the pin at some `port x index`, exported and bound
/// to direction `in` at construction, owned exclusively until released.
#[derive(Debug)]
pub struct InPin {
    num: u32,
}

/// An acquisition result reduced to the line number it carries.
pub open spec fn line_result(r: Result<InPin, GpioError>) -> Result<u32, GpioError> {
    match r {
        Ok(pin) => Ok(pin.line()),
        Err(e) => Err(e),
    }
}

impl InPin {
    /// The flat line number this handle owns.
    pub closed spec fn line(&self) -> u32 {
        self.num
    }

    /// Resets the pin by unexporting it, to clear whatever state a prior
    /// owner left behind, then configures it as an input: the recovery
    /// path when a prior process may have left the line exported.
    ///
    /// It does not take into account whether another application is
    /// using the pin.
    pub fn force_new<P: ControlPlane>(plane: &mut P, port: u8, index: u8) -> (r: Result<
        InPin,
        GpioError,
    >)
        requires
            1 <= port,
        ensures
            same_can_write(*old(plane), *final(plane)),
            r matches Ok(pin) ==> pin.line() == abs_line(port, index),
            exists|out: Result<(), GpioError>|
                {
                    &&& #[trigger] old(plane).can_write(
                        old(plane).exported_lines(),
                        unexport_path_spec(),
                        dec_rep(abs_line(port, index) as nat),
                        out,
                    )
                    &&& init_effect(
                        *old(plane),
                        old(plane).log().push(reset_write(abs_line(port, index))),
                        exported_after_write(
                            old(plane).exported_lines(),
                            unexport_path_spec(),
                            dec_rep(abs_line(port, index) as nat),
                            out,
                        ),
                        *final(plane),
                        port,
                        index,
                        Direction::In,
                        line_result(r),
                    )
                },
    {
        Pin::force_reset(plane, port, index);
        let ghost mid = *plane;
        let r = Self::new(plane, port, index);
        proof {
            let line = abs_line(port, index);
            lemma_same_can_write_trans(*old(plane), mid, *plane);
            let out0 = choose|out: Result<(), GpioError>|
                {
                    &&& #[trigger] old(plane).can_write(
                        old(plane).exported_lines(),
                        unexport_path_spec(),
                        dec_rep(line as nat),
                        out,
                    )
                    &&& mid.exported_lines() == exported_after_write(
                        old(plane).exported_lines(),
                        unexport_path_spec(),
                        dec_rep(line as nat),
                        out,
                    )
                };
            lemma_init_effect_decider(
                *old(plane),
                mid,
                mid.log(),
                mid.exported_lines(),
                *plane,
                port,
                index,
                Direction::In,
                line_result(r),
            );
            assert(old(plane).can_write(
                old(plane).exported_lines(),
                unexport_path_spec(),
                dec_rep(line as nat),
                out0,
            ) && init_effect(
                *old(plane),
                old(plane).log().push(reset_write(line)),
                exported_after_write(
                    old(plane).exported_lines(),
                    unexport_path_spec(),
                    dec_rep(line as nat),
                    out0,
                ),
                *plane,
                port,
                index,
                Direction::In,
                line_result(r),
            ));
        }
        r
    }

    /// Tries to export the pin at `port x index` and bind it to direction
    /// `in`.  The first refused write's error is surfaced unmodified —
    /// a busy error when the line is already exported, usually because
    /// some actor holds it.
    pub fn new<P: ControlPlane>(plane: &mut P, port: u8, index: u8) -> (r: Result<
        InPin,
        GpioError,
    >)
        requires
            1 <= port,
        ensures
            same_can_write(*old(plane), *final(plane)),
            r matches Ok(pin) ==> pin.line() == abs_line(port, index),
            init_effect(
                *old(plane),
                old(plane).log(),
                old(plane).exported_lines(),
                *final(plane),
                port,
                index,
                Direction::In,
                line_result(r),
            ),
    {
        let acquired = Pin::init(plane, port, index, Direction::In);
        match acquired {
            Ok(num) => {
                let pin = InPin { num };
                proof {
                    assert(line_result(Ok::<InPin, GpioError>(pin)) == Ok::<u32, GpioError>(num));
                }
                Ok(pin)
            }
            Err(e) => Err(e),
        }
    }

    /// Reads one byte from the per-line value entry point and parses it.
    /// Opens the entry point afresh on each call; nothing is cached.
    fn read_is_high<P: ControlPlane>(&self, plane: &mut P) -> (r: Result<bool, GpioError>)
        ensures
            final(plane).log() == old(plane).log(),
            final(plane).exported_lines() == old(plane).exported_lines(),
            same_can_write(*old(plane), *final(plane)),
            exists|read: Result<(usize, u8), GpioError>|
                old(plane).can_read(value_path_for(dec_rep(self.line() as nat)), read) && r
                    == high_outcome(read),
    {
        let payload = decimal_bytes(self.num);
        let path = value_path_of(&payload);
        let read = plane.read_value(&path);
        let r = match read {
            Ok((n_read, byte)) => parse_value(n_read, byte),
            Err(e) => Err(e),
        };
        proof {
            assert(old(plane).can_read(value_path_for(dec_rep(self.line() as nat)), read) && r
                == high_outcome(read));
        }
        r
    }

    /// Whether the line is high: `true` for ASCII `1`, `false` for ASCII
    /// `0`, a malformed error for any other byte or a short read, and the
    /// read's own error when it fails.  The handle stays valid either
    /// way and the call may be retried.
    pub fn is_high<P: ControlPlane>(&self, plane: &mut P) -> (r: Result<bool, GpioError>)
        ensures
            final(plane).log() == old(plane).log(),
            final(plane).exported_lines() == old(plane).exported_lines(),
            same_can_write(*old(plane), *final(plane)),
            exists|read: Result<(usize, u8), GpioError>|
                old(plane).can_read(value_path_for(dec_rep(self.line() as nat)), read) && r
                    == high_outcome(read),
    {
        self.read_is_high(plane)
    }

    /// Whether the line is low: the logical negation of [`InPin::is_high`]
    /// on the same single read, with the identical error surface.
    pub fn is_low<P: ControlPlane>(&self, plane: &mut P) -> (r: Result<bool, GpioError>)
        ensures
            final(plane).log() == old(plane).log(),
            final(plane).exported_lines() == old(plane).exported_lines(),
            same_can_write(*old(plane), *final(plane)),
            exists|read: Result<(usize, u8), GpioError>|
                old(plane).can_read(value_path_for(dec_rep(self.line() as nat)), read) && r
                    == low_outcome(read),
    {
        let high = self.read_is_high(plane);
        let r = match high {
            Ok(v) => Ok(!v),
            Err(e) => Err(e),
        };
        proof {
            let read = choose|read: Result<(usize, u8), GpioError>|
                old(plane).can_read(value_path_for(dec_rep(self.line() as nat)), read) && high
                    == high_outcome(read);
            lemma_low_negates_high(read);
            assert(old(plane).can_read(value_path_for(dec_rep(self.line() as nat)), read) && r
                == low_outcome(read));
        }
        r
    }

    /// Releases the line: one best-effort write of its decimal number to
    /// the unexport entry point, any error swallowed.  Consumes the
    /// handle; afterwards the line is free for a later acquisition.
    pub fn release<P: ControlPlane>(self, plane: &mut P)
        ensures
            reset_effect(*old(plane), *final(plane), self.line() as int),
    {
        Pin::force_reset_abs(plane, self.num);
    }
}

} // verus!

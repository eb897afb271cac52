use vstd::prelude::*;

use crate::codec::dec_rep;
use crate::codec::decimal_bytes;
use crate::codec::lemma_dec_rep_len;
use crate::codec::lemma_line_paths_distinct;
use crate::codec::unexport_path_spec;
use crate::codec::value_path_for;
use crate::codec::value_path_of;
use crate::codec::Direction;
use crate::error::GpioError;
use crate::lifecycle::abs_line;
use crate::lifecycle::init_effect;
use crate::lifecycle::lemma_init_effect_decider;
use crate::lifecycle::reset_effect;
use crate::lifecycle::reset_write;
use crate::lifecycle::Pin;
use crate::plane::exported_after_write;
use crate::plane::lemma_same_can_write_trans;
use crate::plane::same_can_write;
use crate::plane::ControlPlane;

verus! {

/// The write that drives the line `line` high or low: one ASCII byte,
/// `1` or `0`, sent to the per-line value entry point.
pub open spec fn level_write(line: int, high: bool) -> (Seq<u8>, Seq<u8>) {
    (
        value_path_for(dec_rep(line as nat)),
        if high {
            seq![('1' as u8)]
        } else {
            seq![('0' as u8)]
        },
    )
}

/// A live output line: the pin at some `port x index`, exported and bound
/// to direction `out` at construction, owned exclusively until released.
#[derive(Debug, PartialEq, Eq, Structural)]
pub struct OutPin {
    num: u32,
}

/// An acquisition result reduced to the line number it carries.
pub open spec fn line_result(r: Result<OutPin, GpioError>) -> Result<u32, GpioError> {
    match r {
        Ok(pin) => Ok(pin.line()),
        Err(e) => Err(e),
    }
}

impl OutPin {
    /// The flat line number this handle owns.
    pub closed spec fn line(&self) -> u32 {
        self.num
    }

    /// Resets the pin by unexporting it, to clear whatever state a prior
    /// owner left behind, then configures it as an output: the recovery
    /// path when a prior process may have left the line exported.
    ///
    /// It does not take into account whether another application is
    /// using the pin.
    pub fn force_new<P: ControlPlane>(plane: &mut P, port: u8, index: u8) -> (r: Result<
        OutPin,
        GpioError,
    >)
        requires
            1 <= port,
        ensures
            same_can_write(*old(plane), *final(plane)),
            r matches Ok(pin) ==> pin.line() == abs_line(port, index),
            exists|out: Result<(), GpioError>|
                {
                    &&& #[trigger] old(plane).can_write(
                        old(plane).exported_lines(),
                        unexport_path_spec(),
                        dec_rep(abs_line(port, index) as nat),
                        out,
                    )
                    &&& init_effect(
                        *old(plane),
                        old(plane).log().push(reset_write(abs_line(port, index))),
                        exported_after_write(
                            old(plane).exported_lines(),
                            unexport_path_spec(),
                            dec_rep(abs_line(port, index) as nat),
                            out,
                        ),
                        *final(plane),
                        port,
                        index,
                        Direction::Out,
                        line_result(r),
                    )
                },
    {
        Pin::force_reset(plane, port, index);
        let ghost mid = *plane;
        let r = Self::new(plane, port, index);
        proof {
            let line = abs_line(port, index);
            lemma_same_can_write_trans(*old(plane), mid, *plane);
            let out0 = choose|out: Result<(), GpioError>|
                {
                    &&& #[trigger] old(plane).can_write(
                        old(plane).exported_lines(),
                        unexport_path_spec(),
                        dec_rep(line as nat),
                        out,
                    )
                    &&& mid.exported_lines() == exported_after_write(
                        old(plane).exported_lines(),
                        unexport_path_spec(),
                        dec_rep(line as nat),
                        out,
                    )
                };
            lemma_init_effect_decider(
                *old(plane),
                mid,
                mid.log(),
                mid.exported_lines(),
                *plane,
                port,
                index,
                Direction::Out,
                line_result(r),
            );
            assert(old(plane).can_write(
                old(plane).exported_lines(),
                unexport_path_spec(),
                dec_rep(line as nat),
                out0,
            ) && init_effect(
                *old(plane),
                old(plane).log().push(reset_write(line)),
                exported_after_write(
                    old(plane).exported_lines(),
                    unexport_path_spec(),
                    dec_rep(line as nat),
                    out0,
                ),
                *plane,
                port,
                index,
                Direction::Out,
                line_result(r),
            ));
        }
        r
    }

    /// Tries to export the pin at `port x index` and bind it to direction
    /// `out`.  The first refused write's error is surfaced unmodified —
    /// a busy error when the line is already exported, usually because
    /// some actor holds it.
    pub fn new<P: ControlPlane>(plane: &mut P, port: u8, index: u8) -> (r: Result<
        OutPin,
        GpioError,
    >)
        requires
            1 <= port,
        ensures
            same_can_write(*old(plane), *final(plane)),
            r matches Ok(pin) ==> pin.line() == abs_line(port, index),
            init_effect(
                *old(plane),
                old(plane).log(),
                old(plane).exported_lines(),
                *final(plane),
                port,
                index,
                Direction::Out,
                line_result(r),
            ),
    {
        let acquired = Pin::init(plane, port, index, Direction::Out);
        match acquired {
            Ok(num) => {
                let pin = OutPin { num };
                proof {
                    assert(line_result(Ok::<OutPin, GpioError>(pin)) == Ok::<u32, GpioError>(num));
                }
                Ok(pin)
            }
            Err(e) => Err(e),
        }
    }

    /// Writes one level byte to the per-line value entry point, opening
    /// it afresh, writing once and closing it.  Nothing is buffered and
    /// the handle does not track the level written.  The outcome — one
    /// the plane's state admits for that write — is returned unmodified,
    /// and the exported lines are untouched.
    fn write_output<P: ControlPlane>(&mut self, plane: &mut P, high: bool) -> (r: Result<
        (),
        GpioError,
    >)
        ensures
            *final(self) == *old(self),
            final(plane).log() == old(plane).log().push(level_write(old(self).line() as int, high)),
            old(plane).can_write(
                old(plane).exported_lines(),
                level_write(old(self).line() as int, high).0,
                level_write(old(self).line() as int, high).1,
                r,
            ),
            final(plane).exported_lines() == old(plane).exported_lines(),
            same_can_write(*old(plane), *final(plane)),
    {
        let payload = decimal_bytes(self.num);
        let path = value_path_of(&payload);
        let mut level: Vec<u8> = Vec::new();
        if high {
            level.push('1' as u8);
        } else {
            level.push('0' as u8);
        }
        proof {
            assert(level@ =~= level_write(self.line() as int, high).1);
        }
        let r = plane.write(&path, &level);
        proof {
            lemma_dec_rep_len(self.num as nat);
            lemma_line_paths_distinct(dec_rep(self.num as nat));
        }
        r
    }

    /// Drives the line low: writes the single ASCII byte `0` to the value
    /// entry point.  A refused write's error is surfaced unmodified; the
    /// handle stays valid.
    pub fn set_low<P: ControlPlane>(&mut self, plane: &mut P) -> (r: Result<(), GpioError>)
        ensures
            *final(self) == *old(self),
            final(plane).log() == old(plane).log().push(level_write(old(self).line() as int, false)),
            old(plane).can_write(
                old(plane).exported_lines(),
                level_write(old(self).line() as int, false).0,
                level_write(old(self).line() as int, false).1,
                r,
            ),
            final(plane).exported_lines() == old(plane).exported_lines(),
            same_can_write(*old(plane), *final(plane)),
    {
        self.write_output(plane, false)
    }

    /// Drives the line high: writes the single ASCII byte `1` to the
    /// value entry point.  A refused write's error is surfaced unmodified;
    /// the handle stays valid.
    pub fn set_high<P: ControlPlane>(&mut self, plane: &mut P) -> (r: Result<(), GpioError>)
        ensures
            *final(self) == *old(self),
            final(plane).log() == old(plane).log().push(level_write(old(self).line() as int, true)),
            old(plane).can_write(
                old(plane).exported_lines(),
                level_write(old(self).line() as int, true).0,
                level_write(old(self).line() as int, true).1,
                r,
            ),
            final(plane).exported_lines() == old(plane).exported_lines(),
            same_can_write(*old(plane), *final(plane)),
    {
        self.write_output(plane, true)
    }

    /// Releases the line: one best-effort write of its decimal number to
    /// the unexport entry point, any error swallowed.  Consumes the
    /// handle; afterwards the line is free for a later acquisition.
    pub fn release<P: ControlPlane>(self, plane: &mut P)
        ensures
            reset_effect(*old(plane), *final(plane), self.line() as int),
    {
        Pin::force_reset_abs(plane, self.num);
    }
}

} // verus!

use vstd::prelude::*;

use crate::codec::bytes_eq;
use crate::codec::copy_bytes;
use crate::codec::direction_path_for;
use crate::codec::direction_path_of;
use crate::codec::export_path;
use crate::codec::export_path_spec;
use crate::codec::unexport_path;
use crate::codec::unexport_path_spec;
use crate::codec::value_path_for;
use crate::codec::value_path_of;
use crate::error::GpioError;
use crate::plane::exported_after_write;
use crate::plane::ControlPlane;
use crate::plane::PlaneWrite;

verus! {

/// The views of a sequence of byte vectors, element by element.
pub open spec fn payloads_view(s: Seq<Vec<u8>>) -> Seq<Seq<u8>> {
    Seq::new(s.len(), |i: int| s[i]@)
}

/// The views of a sequence of plane writes, element by element.
pub open spec fn writes_view(s: Seq<PlaneWrite>) -> Seq<(Seq<u8>, Seq<u8>)> {
    Seq::new(s.len(), |i: int| s[i]@)
}

/// Whether `path` names the direction entry point of a line whose decimal
/// payload is in `exported`.
pub open spec fn some_direction_path(exported: Seq<Seq<u8>>, path: Seq<u8>) -> bool {
    exists|i: int| 0 <= i < exported.len() && path == direction_path_for(exported[i])
}

/// Whether `path` names the value entry point of a line whose decimal
/// payload is in `exported`.
pub open spec fn some_value_path(exported: Seq<Seq<u8>>, path: Seq<u8>) -> bool {
    exists|i: int| 0 <= i < exported.len() && path == value_path_for(exported[i])
}

/// Removing an element of a sequence of byte vectors commutes with taking
/// the elements' views.
proof fn lemma_payloads_view_remove(s: Seq<Vec<u8>>, i: int)
    requires
        0 <= i < s.len(),
    ensures
        payloads_view(s.remove(i)) == payloads_view(s).remove(i),
{
    assert(payloads_view(s.remove(i)) =~= payloads_view(s).remove(i));
}

/// The first index of `payload` among the exported payloads, if any.
fn find_payload(exported: &Vec<Vec<u8>>, payload: &Vec<u8>) -> (r: Option<usize>)
    ensures
        match r {
            Some(i) => {
                &&& i < exported@.len()
                &&& payloads_view(exported@)[i as int] == payload@
                &&& forall|j: int| 0 <= j < i ==> payloads_view(exported@)[j] != payload@
                &&& payloads_view(exported@).contains(payload@)
            },
            None => !payloads_view(exported@).contains(payload@),
        },
{
    let mut i: usize = 0;
    while i < exported.len()
        invariant
            i <= exported@.len(),
            forall|j: int| 0 <= j < i ==> payloads_view(exported@)[j] != payload@,
        decreases exported@.len() - i,
    {
        if bytes_eq(&exported[i], payload) {
            proof {
                assert(payloads_view(exported@)[i as int] == payload@);
            }
            return Some(i);
        }
        i += 1;
    }
    proof {
        assert forall|k: int|
            0 <= k < payloads_view(exported@).len() implies payloads_view(exported@)[k]
            != payload@ by {}
    }
    None
}

/// Whether `path` names the direction entry point of some exported line.
fn is_direction_of_exported(exported: &Vec<Vec<u8>>, path: &Vec<u8>) -> (r: bool)
    ensures
        r == some_direction_path(payloads_view(exported@), path@),
{
    let mut i: usize = 0;
    while i < exported.len()
        invariant
            i <= exported@.len(),
            forall|j: int| 0 <= j < i ==> path@ != direction_path_for(payloads_view(exported@)[j]),
        decreases exported@.len() - i,
    {
        let candidate = direction_path_of(&exported[i]);
        if bytes_eq(path, &candidate) {
            proof {
                assert(path@ == direction_path_for(payloads_view(exported@)[i as int]));
            }
            return true;
        }
        i += 1;
    }
    proof {
        assert forall|k: int|
            0 <= k < payloads_view(exported@).len() implies path@ != direction_path_for(
            payloads_view(exported@)[k],
        ) by {}
    }
    false
}

/// Whether `path` names the value entry point of some exported line.
fn is_value_of_exported(exported: &Vec<Vec<u8>>, path: &Vec<u8>) -> (r: bool)
    ensures
        r == some_value_path(payloads_view(exported@), path@),
{
    let mut i: usize = 0;
    while i < exported.len()
        invariant
            i <= exported@.len(),
            forall|j: int| 0 <= j < i ==> path@ != value_path_for(payloads_view(exported@)[j]),
        decreases exported@.len() - i,
    {
        let candidate = value_path_of(&exported[i]);
        if bytes_eq(path, &candidate) {
            proof {
                assert(path@ == value_path_for(payloads_view(exported@)[i as int]));
            }
            return true;
        }
        i += 1;
    }
    proof {
        assert forall|k: int|
            0 <= k < payloads_view(exported@).len() implies path@ != value_path_for(
            payloads_view(exported@)[k],
        ) by {}
    }
    false
}

/// A simulated control plane: the per-process state of the line registry,
/// just enough to exercise the acquisition protocol, the read/write
/// contract and the release path without hardware.
///
/// Every write attempt is logged.  Export refuses a payload that is
/// already exported; unexport of a payload that is not exported fails
/// (the caller of a forced reset swallows that); direction and value
/// entry points exist exactly for the exported payloads.  The fields are
/// public so a caller can arrange a pre-state — a line left exported by a
/// prior owner, a value byte to be read, a failure mode — and inspect
/// what was written.
pub struct FakePlane {
    /// Every write issued so far, oldest first, successful or not.
    pub written: Vec<PlaneWrite>,
    /// The decimal payloads of the currently exported lines, oldest
    /// first.
    pub exported: Vec<Vec<u8>>,
    /// The byte a value read yields.
    pub value_byte: u8,
    /// How many bytes a value read yields; 0 simulates a short read.
    pub value_len: usize,
    /// When set, every write fails with this kind, as for a process that
    /// lacks write access to the control plane.
    pub deny_writes: Option<GpioError>,
    /// When set, direction writes fail with an I/O error, as for a
    /// failure in the window between export and direction binding.
    pub fail_direction: bool,
}

impl FakePlane {
    /// The decimal payloads of the currently exported lines.
    pub open spec fn exported_view(self) -> Seq<Seq<u8>> {
        payloads_view(self.exported@)
    }

    /// The outcome of writing `payload` to the entry point named `path`
    /// while the lines in `exported` are the exported ones and the
    /// plane's failure modes are this state's.
    pub open spec fn outcome_with(
        self,
        exported: Seq<Seq<u8>>,
        path: Seq<u8>,
        payload: Seq<u8>,
    ) -> Result<(), GpioError> {
        match self.deny_writes {
            Some(kind) => Err(kind),
            None => if path == export_path_spec() {
                if exported.contains(payload) {
                    Err(GpioError::Busy)
                } else {
                    Ok(())
                }
            } else if path == unexport_path_spec() {
                if exported.contains(payload) {
                    Ok(())
                } else {
                    Err(GpioError::Io)
                }
            } else if some_direction_path(exported, path) {
                if self.fail_direction {
                    Err(GpioError::Io)
                } else {
                    Ok(())
                }
            } else if some_value_path(exported, path) {
                Ok(())
            } else {
                Err(GpioError::NotFound)
            },
        }
    }

    /// The outcome of writing `payload` to the entry point named `path`
    /// while the plane is in this state.
    pub open spec fn write_outcome(self, path: Seq<u8>, payload: Seq<u8>) -> Result<
        (),
        GpioError,
    > {
        self.outcome_with(self.exported_view(), path, payload)
    }

    /// The exported payloads after writing `payload` to `path`: a
    /// successful export appends it, a successful unexport removes its
    /// first occurrence, everything else leaves them unchanged.
    pub open spec fn exported_after(self, path: Seq<u8>, payload: Seq<u8>) -> Seq<Seq<u8>> {
        exported_after_write(self.exported_view(), path, payload, self.write_outcome(path, payload))
    }

    /// The outcome of reading the entry point named `path` while the
    /// plane is in this state: the configured byte (and at most one byte
    /// of it) for the value entry point of an exported line, a not-found
    /// error for anything else.
    pub open spec fn read_outcome(self, path: Seq<u8>) -> Result<(usize, u8), GpioError> {
        if some_value_path(self.exported_view(), path) {
            Ok(
                (
                    if self.value_len <= 1 {
                        self.value_len
                    } else {
                        1
                    },
                    self.value_byte,
                ),
            )
        } else {
            Err(GpioError::NotFound)
        }
    }

    /// A fresh plane: nothing written, nothing exported, reads yield one
    /// ASCII `0`, and no failure mode is armed.
    pub fn new() -> (r: FakePlane)
        ensures
            r.log() == Seq::<(Seq<u8>, Seq<u8>)>::empty(),
            r.exported_view() == Seq::<Seq<u8>>::empty(),
            r.value_byte == ('0' as u8),
            r.value_len == 1,
            r.deny_writes is None,
            r.fail_direction == false,
    {
        let r = FakePlane {
            written: Vec::new(),
            exported: Vec::new(),
            value_byte: '0' as u8,
            value_len: 1,
            deny_writes: None,
            fail_direction: false,
        };
        proof {
            assert(r.log() =~= Seq::<(Seq<u8>, Seq<u8>)>::empty());
            assert(r.exported_view() =~= Seq::<Seq<u8>>::empty());
        }
        r
    }
}

impl ControlPlane for FakePlane {
    open spec fn log(&self) -> Seq<(Seq<u8>, Seq<u8>)> {
        writes_view(self.written@)
    }

    open spec fn exported_lines(&self) -> Seq<Seq<u8>> {
        payloads_view(self.exported@)
    }

    open spec fn can_write(
        &self,
        exported: Seq<Seq<u8>>,
        path: Seq<u8>,
        payload: Seq<u8>,
        out: Result<(), GpioError>,
    ) -> bool {
        out == self.outcome_with(exported, path, payload)
    }

    open spec fn can_read(&self, path: Seq<u8>, out: Result<(usize, u8), GpioError>) -> bool {
        out == self.read_outcome(path)
    }

    fn write(&mut self, path: &Vec<u8>, payload: &Vec<u8>) -> (r: Result<(), GpioError>)
        ensures
            r == old(self).write_outcome(path@, payload@),
            final(self).exported_view() == old(self).exported_after(path@, payload@),
            final(self).value_byte == old(self).value_byte,
            final(self).value_len == old(self).value_len,
            final(self).deny_writes == old(self).deny_writes,
            final(self).fail_direction == old(self).fail_direction,
    {
        let entry = PlaneWrite { path: copy_bytes(path), payload: copy_bytes(payload) };
        self.written.push(entry);
        proof {
            assert(self.log() =~= old(self).log().push((path@, payload@)));
        }
        match self.deny_writes {
            Some(kind) => {
                return Err(kind);
            }
            None => {}
        }
        let export = export_path();
        if bytes_eq(path, &export) {
            match find_payload(&self.exported, payload) {
                Some(_found) => Err(GpioError::Busy),
                None => {
                    self.exported.push(copy_bytes(payload));
                    proof {
                        assert(self.exported_view() =~= old(self).exported_view().push(payload@));
                    }
                    Ok(())
                }
            }
        } else {
            let unexport = unexport_path();
            if bytes_eq(path, &unexport) {
                match find_payload(&self.exported, payload) {
                    Some(found) => {
                        proof {
                            let s = old(self).exported_view();
                            s.index_of_first_ensures(payload@);
                            let first = s.index_of_first(payload@)->Some_0;
                            assert(s[found as int] == payload@);
                            assert(first == found as int);
                            lemma_payloads_view_remove(old(self).exported@, found as int);
                        }
                        self.exported.remove(found);
                        Ok(())
                    }
                    None => Err(GpioError::Io),
                }
            } else if is_direction_of_exported(&self.exported, path) {
                if self.fail_direction {
                    Err(GpioError::Io)
                } else {
                    Ok(())
                }
            } else if is_value_of_exported(&self.exported, path) {
                Ok(())
            } else {
                Err(GpioError::NotFound)
            }
        }
    }

    fn read_value(&mut self, path: &Vec<u8>) -> (r: Result<(usize, u8), GpioError>)
        ensures
            *final(self) == *old(self),
            r == old(self).read_outcome(path@),
    {
        if is_value_of_exported(&self.exported, path) {
            let n_read: usize = if self.value_len <= 1 {
                self.value_len
            } else {
                1
            };
            Ok((n_read, self.value_byte))
        } else {
            Err(GpioError::NotFound)
        }
    }
}

} // verus!

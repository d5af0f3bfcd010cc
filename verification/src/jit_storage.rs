//! The JIT-slot arena: a fixed array of program slots with exclusive
//! acquire / release.
//!
//! Each slot holds at most one compiled program at a time, together with the
//! offset of the program entry within the slot.  What a slot records is the
//! program the back-end compiled, as handed to the JIT: the native code the
//! JIT emitted stays inside the host's compiler, which exposes no buffer to
//! copy it from, so the slot stands for the compiled artifact by its source
//! bytes.  A slot is either free or held by exactly one back-end instance;
//! acquiring a held slot fails instead of waiting, and the holder releases
//! the slot on every exit path, errors included.

use vstd::prelude::*;

verus! {

/// Capacity of one slot, in bytes: comparable to the SUIT program-buffer
/// size, so any loadable program fits after compilation.
pub const JIT_SLOT_SIZE: usize = 2048;

/// Why a slot operation failed.
#[derive(Clone, Copy, PartialEq, Eq, Structural, Debug)]
pub enum JitStorageError {
    /// The slot index names no slot of the arena.
    OutOfRange,
    /// The slot is already held by another back-end instance.
    AlreadyTaken,
    /// The slot is free, so it holds nothing to run or release.
    SlotFree,
    /// The program does not fit in a slot.
    ProgramTooLarge,
}

/// One slot: whether it is held, the bytes of the program installed in it,
/// and the offset of the entry point within those bytes.
pub struct JitSlot {
    pub occupied: bool,
    pub text_offset: usize,
    pub program: Vec<u8>,
}

/// The mathematical value of one slot.
pub struct JitSlotModel {
    pub occupied: bool,
    pub text_offset: usize,
    pub program: Seq<u8>,
}

impl View for JitSlot {
    type V = JitSlotModel;

    open spec fn view(&self) -> JitSlotModel {
        JitSlotModel {
            occupied: self.occupied,
            text_offset: self.text_offset,
            program: self.program@,
        }
    }
}

/// The arena of JIT slots.
pub struct JitProgramStorage {
    pub slots: Vec<JitSlot>,
}

impl View for JitProgramStorage {
    type V = Seq<JitSlotModel>;

    open spec fn view(&self) -> Seq<JitSlotModel> {
        self.slots@.map_values(|s: JitSlot| s@)
    }
}

/// An empty, free slot.
pub open spec fn spec_free_slot() -> JitSlotModel {
    JitSlotModel { occupied: false, text_offset: 0, program: Seq::empty() }
}

impl JitProgramStorage {
    /// Every installed program fits its slot.
    pub open spec fn wf(self) -> bool {
        forall|i: int| 0 <= i < self@.len() ==> (#[trigger] self@[i]).program.len() <= JIT_SLOT_SIZE
    }

    /// A fresh arena of `slot_count` free slots.
    pub fn new(slot_count: usize) -> (r: JitProgramStorage)
        ensures
            r@.len() == slot_count,
            forall|i: int| 0 <= i < slot_count ==> r@[i] == spec_free_slot(),
            r.wf(),
    {
        let mut slots: Vec<JitSlot> = Vec::new();
        let mut n: usize = 0;
        while n < slot_count
            invariant
                n <= slot_count,
                slots@.len() == n,
                forall|i: int|
                    0 <= i < n ==> (#[trigger] slots@[i])@ == spec_free_slot(),
            decreases slot_count - n,
        {
            slots.push(JitSlot { occupied: false, text_offset: 0, program: Vec::new() });
            n += 1;
        }
        let r = JitProgramStorage { slots };
        assert(forall|i: int| 0 <= i < slot_count ==> r@[i] == spec_free_slot());
        r
    }

    /// The number of slots.
    pub fn slot_count(&self) -> (r: usize)
        ensures
            r == self@.len(),
    {
        self.slots.len()
    }

    /// Takes exclusive hold of a slot.  Succeeds exactly when the index
    /// names a slot that is currently free; a held slot is never handed out
    /// a second time.
    pub fn acquire_storage_slot(&mut self, index: usize) -> (r: Result<(), JitStorageError>)
        ensures
            r is Ok <==> index < old(self)@.len() && !old(self)@[index as int].occupied,
            index >= old(self)@.len() ==> r == Err::<(), JitStorageError>(
                JitStorageError::OutOfRange,
            ),
            index < old(self)@.len() && old(self)@[index as int].occupied ==> r == Err::<
                (),
                JitStorageError,
            >(JitStorageError::AlreadyTaken),
            r is Ok ==> final(self)@ =~= old(self)@.update(
                index as int,
                JitSlotModel { occupied: true, ..old(self)@[index as int] },
            ),
            r is Err ==> final(self)@ == old(self)@,
            old(self).wf() ==> final(self).wf(),
    {
        if index >= self.slots.len() {
            return Err(JitStorageError::OutOfRange);
        }
        if self.slots[index].occupied {
            return Err(JitStorageError::AlreadyTaken);
        }
        let slot = &mut self.slots[index];
        slot.occupied = true;
        Ok(())
    }

    /// Installs a compiled program and its entry offset into a held slot.
    /// Succeeds exactly when the index names a held slot and the program
    /// fits it.
    pub fn store_program(&mut self, index: usize, program: &[u8], text_offset: usize) -> (r: Result<
        (),
        JitStorageError,
    >)
        ensures
            r is Ok <==> index < old(self)@.len() && old(self)@[index as int].occupied
                && program@.len() <= JIT_SLOT_SIZE,
            r is Ok ==> final(self)@ =~= old(self)@.update(
                index as int,
                JitSlotModel { occupied: true, text_offset, program: program@ },
            ),
            r is Err ==> final(self)@ == old(self)@,
            old(self).wf() ==> final(self).wf(),
    {
        if index >= self.slots.len() {
            return Err(JitStorageError::OutOfRange);
        }
        if !self.slots[index].occupied {
            return Err(JitStorageError::SlotFree);
        }
        if program.len() > JIT_SLOT_SIZE {
            return Err(JitStorageError::ProgramTooLarge);
        }
        let copy = vstd::slice::slice_to_vec(program);
        let slot = &mut self.slots[index];
        slot.program = copy;
        slot.text_offset = text_offset;
        assert(final(slot)@ == (JitSlotModel {
            occupied: true,
            text_offset,
            program: program@,
        })) by {
            assert(final(slot).occupied);
        }
        proof {
            let updated = old(self)@.update(
                index as int,
                JitSlotModel { occupied: true, text_offset, program: program@ },
            );
            assert(self@ =~= updated);
            if old(self).wf() {
                assert forall|i: int|
                    0 <= i < self@.len() implies (#[trigger] self@[i]).program.len()
                    <= JIT_SLOT_SIZE by {
                    if i != index {
                        assert(self@[i] == old(self)@[i]);
                    }
                }
            }
        }
        Ok(())
    }

    /// The program held in a slot, with its entry offset.  Fails exactly
    /// when the index names no slot or the slot is free.
    pub fn get_program_from_slot(&self, index: usize) -> (r: Result<
        (&Vec<u8>, usize),
        JitStorageError,
    >)
        ensures
            r is Ok <==> index < self@.len() && self@[index as int].occupied,
            index >= self@.len() ==> r == Err::<(&Vec<u8>, usize), JitStorageError>(
                JitStorageError::OutOfRange,
            ),
            index < self@.len() && !self@[index as int].occupied ==> r == Err::<
                (&Vec<u8>, usize),
                JitStorageError,
            >(JitStorageError::SlotFree),
            r matches Ok((p, t)) ==> p@ == self@[index as int].program && t == self@[
                index as int
            ].text_offset,
    {
        if index >= self.slots.len() {
            return Err(JitStorageError::OutOfRange);
        }
        if !self.slots[index].occupied {
            return Err(JitStorageError::SlotFree);
        }
        let slot = &self.slots[index];
        Ok((&slot.program, slot.text_offset))
    }

    /// Releases a held slot, clearing its contents.  Succeeds exactly when
    /// the index names a held slot; releasing a free slot changes nothing.
    pub fn free_storage_slot(&mut self, index: usize) -> (r: Result<(), JitStorageError>)
        ensures
            r is Ok <==> index < old(self)@.len() && old(self)@[index as int].occupied,
            r is Ok ==> final(self)@ =~= old(self)@.update(index as int, spec_free_slot()),
            r is Err ==> final(self)@ == old(self)@,
            old(self).wf() ==> final(self).wf(),
            index < old(self)@.len() ==> index < final(self)@.len() && !final(self)@[
                index as int
            ].occupied,
    {
        if index >= self.slots.len() {
            return Err(JitStorageError::OutOfRange);
        }
        if !self.slots[index].occupied {
            return Err(JitStorageError::SlotFree);
        }
        let slot = &mut self.slots[index];
        slot.occupied = false;
        slot.text_offset = 0;
        slot.program = Vec::new();
        assert(final(slot)@ == spec_free_slot()) by {
            assert(final(slot).program@ =~= Seq::<u8>::empty());
        }
        proof {
            let updated = old(self)@.update(index as int, spec_free_slot());
            assert(self@ =~= updated);
            if old(self).wf() {
                assert forall|i: int|
                    0 <= i < self@.len() implies (#[trigger] self@[i]).program.len()
                    <= JIT_SLOT_SIZE by {
                    if i != index {
                        assert(self@[i] == old(self)@[i]);
                    }
                }
            }
        }
        Ok(())
    }
}

/// Exclusive hold: once a slot is acquired, a second acquisition of the same
/// slot fails until the slot is released, and releasing it makes it
/// acquirable again.  The statement is over the arena's model: acquiring
/// marks the slot held, a held slot refuses acquisition, and releasing
/// restores a free slot.
pub proof fn lemma_slot_exclusivity(slots: Seq<JitSlotModel>, index: int)
    requires
        0 <= index < slots.len(),
        !slots[index].occupied,
    ensures
        slots.update(index, JitSlotModel { occupied: true, ..slots[index] })[index].occupied,
        slots.update(index, JitSlotModel { occupied: true, ..slots[index] }).update(
            index,
            spec_free_slot(),
        )[index].occupied == false,
{
}

} // verus!

//! The animation sequences of all characters, loaded once and read by the
//! animation system.

use vstd::prelude::*;

verus! {

/// Why a definition of animations is turned down when it is loaded.
#[derive(Clone, Copy, Debug, PartialEq, Eq, Structural)]
pub enum AnimationError {
    /// A character without a sequence.
    NoSequence,
    /// A sequence without a frame.
    EmptySequence,
    /// A sequence with more or fewer durations than frames.
    LengthMismatch,
    /// A character without one of the sequences that its kind plays.
    MissingSequence,
    /// A sequence that names a frame which the sheet does not have, or a
    /// sheet without columns.
    FrameOutOfRange,
}

/// One sequence: the atlas cell of each frame, and the duration of each frame
/// in milliseconds.
#[derive(Debug, PartialEq, Eq)]
pub struct AnimationData {
    pub frames: Vec<[u8; 2]>,
    pub dt: Vec<u32>,
}

impl AnimationData {
    /// What is wrong with the sequence, if anything.
    pub open spec fn defect(self) -> Option<AnimationError> {
        if self.frames.len() == 0 {
            Some(AnimationError::EmptySequence)
        } else if self.frames.len() != self.dt.len() {
            Some(AnimationError::LengthMismatch)
        } else {
            None
        }
    }

    /// The sequence has a frame, and a duration for each frame.
    pub open spec fn wf(self) -> bool {
        self.defect() is None
    }

    /// The time for which each frame of the sequence is shown at normal
    /// speed: the duration of its first frame.
    pub open spec fn frame_duration(self) -> u32 {
        self.dt[0]
    }

    /// Makes a sequence of frames and their durations, unless they are
    /// malformed.
    pub fn new(frames: Vec<[u8; 2]>, dt: Vec<u32>) -> (made: Result<AnimationData, AnimationError>)
        ensures
            match made {
                Ok(data) => data.frames == frames && data.dt == dt && data.wf(),
                Err(e) => (AnimationData { frames, dt }).defect() == Some(e),
            },
    {
        let data = AnimationData { frames, dt };
        match data.check() {
            Some(e) => Err(e),
            None => Ok(data),
        }
    }

    /// The atlas cell of the `i`-th frame of a sheet that is `columns` cells
    /// wide: the frames fill the sheet row by row.
    pub open spec fn cell_of(i: int, columns: int) -> [u8; 2] {
        [(i % columns) as u8, (i / columns) as u8]
    }

    /// Whether the frames `from` to `to` of a sheet can make a sequence:
    /// the sheet has columns, holds the frames, and is no more than 256 rows
    /// high up to the last of them.
    pub open spec fn tag_fits(frames: int, from: int, to: int, columns: int) -> bool {
        columns >= 1 && to < frames && to / columns <= u8::MAX
    }

    /// The sequence of the frames `from` to `to`, both included, of a sheet
    /// that is `columns` cells wide and whose frames last for `durations`
    /// milliseconds. A sequence that the sheet cannot make, or that has no
    /// frame, is turned down.
    pub fn from_sheet(durations: &Vec<u32>, from: usize, to: usize, columns: u8) -> (made: Result<
        AnimationData,
        AnimationError,
    >)
        ensures
            match made {
                Ok(data) => {
                    &&& from <= to
                    &&& Self::tag_fits(durations.len() as int, from as int, to as int, columns as int)
                    &&& data.wf()
                    &&& data.frames.len() == to - from + 1
                    &&& forall|k: int|
                        0 <= k < data.frames.len() ==> #[trigger] data.frames[k] == Self::cell_of(
                            from + k,
                            columns as int,
                        )
                    &&& data.dt@ == durations@.subrange(from as int, to + 1)
                },
                Err(e) => {
                    &&& e == AnimationError::EmptySequence || e == AnimationError::FrameOutOfRange
                    &&& e == AnimationError::EmptySequence <==> from > to
                    &&& e == AnimationError::FrameOutOfRange ==> !Self::tag_fits(
                        durations.len() as int,
                        from as int,
                        to as int,
                        columns as int,
                    )
                },
            },
    {
        if from > to {
            return Err(AnimationError::EmptySequence);
        }
        if columns == 0 || to >= durations.len() || to / (columns as usize) > u8::MAX as usize {
            return Err(AnimationError::FrameOutOfRange);
        }
        let width: usize = columns as usize;
        let mut frames: Vec<[u8; 2]> = Vec::new();
        let mut dt: Vec<u32> = Vec::new();
        let mut i: usize = from;
        while i <= to
            invariant
                from <= i <= to + 1,
                to < durations.len(),
                width == columns,
                width >= 1,
                to / width <= u8::MAX,
                frames.len() == i - from,
                dt.len() == i - from,
                forall|k: int|
                    0 <= k < frames.len() ==> #[trigger] frames[k] == Self::cell_of(from + k, columns as int),
                dt@ == durations@.subrange(from as int, i as int),
            decreases to + 1 - i,
        {
            assert(i / width <= to / width) by (nonlinear_arith)
                requires
                    i <= to,
                    width >= 1,
            ;
            assert(i % width < width) by (nonlinear_arith)
                requires
                    width >= 1,
            ;
            frames.push([(i % width) as u8, (i / width) as u8]);
            dt.push(durations[i]);
            assert(dt@ =~= durations@.subrange(from as int, i + 1));
            i += 1;
        }
        Ok(AnimationData { frames, dt })
    }

    /// What is wrong with the sequence, if anything.
    pub fn check(&self) -> (found: Option<AnimationError>)
        ensures
            found == self.defect(),
    {
        if self.frames.len() == 0 {
            Some(AnimationError::EmptySequence)
        } else if self.frames.len() != self.dt.len() {
            Some(AnimationError::LengthMismatch)
        } else {
            None
        }
    }

    /// The number of frames.
    pub fn len(&self) -> (n: usize)
        ensures
            n == self.frames.len(),
    {
        self.frames.len()
    }

    pub fn get_frame_duration(&self) -> (d: u32)
        requires
            self.wf(),
        ensures
            d == self.frame_duration(),
    {
        self.dt[0]
    }
}

/// What is wrong with the first malformed sequence among some, if any is.
pub open spec fn first_defect(sequences: Seq<AnimationData>) -> Option<AnimationError>
    decreases sequences.len(),
{
    if sequences.len() == 0 {
        None
    } else {
        match first_defect(sequences.drop_last()) {
            Some(e) => Some(e),
            None => sequences.last().defect(),
        }
    }
}

/// Sequences have no defect exactly if each of them is well formed.
pub proof fn lemma_no_defect(sequences: Seq<AnimationData>)
    ensures
        first_defect(sequences) is None <==> forall|i: int|
            0 <= i < sequences.len() ==> (#[trigger] sequences[i]).wf(),
    decreases sequences.len(),
{
    if sequences.len() > 0 {
        lemma_no_defect(sequences.drop_last());
        if first_defect(sequences) is None {
            assert forall|i: int| 0 <= i < sequences.len() implies (#[trigger] sequences[i]).wf() by {
                if i < sequences.len() - 1 {
                    assert(sequences.drop_last()[i] == sequences[i]);
                }
            }
        } else if first_defect(sequences.drop_last()) is Some {
            let j = choose|j: int|
                0 <= j < sequences.drop_last().len() && !(#[trigger] sequences.drop_last()[j]).wf();
            assert(sequences[j] == sequences.drop_last()[j]);
        }
    }
}

/// The sequences of one character, under the name of its atlas.
#[derive(Debug, PartialEq, Eq)]
pub struct AnimationSet {
    pub name: String,
    pub sequences: Vec<AnimationData>,
}

impl AnimationSet {
    /// What is wrong with the set, if anything.
    pub open spec fn defect(self) -> Option<AnimationError> {
        if self.sequences.len() == 0 {
            Some(AnimationError::NoSequence)
        } else {
            first_defect(self.sequences@)
        }
    }

    /// There is a sequence, and every sequence is well formed.
    pub open spec fn wf(self) -> bool {
        &&& self.sequences.len() > 0
        &&& forall|i: int| 0 <= i < self.sequences.len() ==> (#[trigger] self.sequences[i]).wf()
    }

    /// What is wrong with the set, if anything.
    pub fn check(&self) -> (found: Option<AnimationError>)
        ensures
            found == self.defect(),
            found is None <==> self.wf(),
    {
        proof {
            lemma_no_defect(self.sequences@);
        }
        if self.sequences.len() == 0 {
            return Some(AnimationError::NoSequence);
        }
        let mut i: usize = 0;
        while i < self.sequences.len()
            invariant
                0 <= i <= self.sequences.len(),
                first_defect(self.sequences@.take(i as int)) is None,
            decreases self.sequences.len() - i,
        {
            assert(self.sequences@.take(i + 1).drop_last() == self.sequences@.take(i as int));
            match self.sequences[i].check() {
                Some(e) => {
                    proof {
                        lemma_defect_found(self.sequences@, i as int);
                    }
                    return Some(e);
                },
                None => {},
            }
            i += 1;
        }
        assert(self.sequences@.take(i as int) == self.sequences@);
        None
    }
}

/// Where the sequences before a place have no defect and the one at the place
/// has, that defect is the first.
pub proof fn lemma_defect_found(sequences: Seq<AnimationData>, i: int)
    requires
        0 <= i < sequences.len(),
        first_defect(sequences.take(i)) is None,
        sequences[i].defect() is Some,
    ensures
        first_defect(sequences) == sequences[i].defect(),
    decreases sequences.len(),
{
    if i == sequences.len() - 1 {
        assert(sequences.take(i) == sequences.drop_last());
    } else {
        assert(sequences.drop_last().take(i) == sequences.take(i));
        lemma_defect_found(sequences.drop_last(), i);
    }
}

/// The animations of all characters. A character is known by the place of
/// its set.
#[derive(Debug, PartialEq, Eq)]
pub struct AnimationDataHandler {
    pub sets: Vec<AnimationSet>,
}

impl AnimationDataHandler {
    /// Every set is well formed.
    pub open spec fn wf(self) -> bool {
        forall|i: int| 0 <= i < self.sets.len() ==> (#[trigger] self.sets[i]).wf()
    }

    /// Whether `index` is a sequence of the set at `table`.
    pub open spec fn has(self, table: int, index: int) -> bool {
        0 <= table < self.sets.len() && 0 <= index < self.sets[table].sequences.len()
    }

    /// Takes in the sequences of a character, unless they are malformed, and
    /// tells the place of the new set.
    pub fn add(&mut self, name: String, sequences: Vec<AnimationData>) -> (added: Result<
        usize,
        AnimationError,
    >)
        requires
            old(self).wf(),
        ensures
            final(self).wf(),
            match added {
                Ok(table) => {
                    &&& (AnimationSet { name, sequences }).defect() is None
                    &&& table == old(self).sets.len()
                    &&& final(self).sets@ == old(self).sets@.push(AnimationSet { name, sequences })
                },
                Err(e) => {
                    &&& (AnimationSet { name, sequences }).defect() == Some(e)
                    &&& *final(self) == *old(self)
                },
            },
    {
        let set = AnimationSet { name, sequences };
        match set.check() {
            Some(e) => Err(e),
            None => {
                let table = self.sets.len();
                self.sets.push(set);
                Ok(table)
            },
        }
    }

    /// The place of the first set of a name, if there is one.
    pub fn find(&self, name: &String) -> (found: Option<usize>)
        ensures
            match found {
                Some(i) => {
                    &&& i < self.sets.len()
                    &&& self.sets[i as int].name@ == name@
                    &&& forall|j: int| 0 <= j < i ==> (#[trigger] self.sets[j]).name@ != name@
                },
                None => forall|j: int| 0 <= j < self.sets.len() ==> (#[trigger] self.sets[j]).name@ != name@,
            },
    {
        let mut i: usize = 0;
        while i < self.sets.len()
            invariant
                0 <= i <= self.sets.len(),
                forall|j: int| 0 <= j < i ==> (#[trigger] self.sets[j]).name@ != name@,
            decreases self.sets.len() - i,
        {
            if self.sets[i].name == *name {
                return Some(i);
            }
            i += 1;
        }
        None
    }

    /// A sequence of a character.
    pub fn get_anim_data(&self, table: usize, index: usize) -> (data: &AnimationData)
        requires
            self.has(table as int, index as int),
        ensures
            *data == self.sets[table as int].sequences[index as int],
    {
        &self.sets[table].sequences[index]
    }
}

impl Default for AnimationDataHandler {
    fn default() -> (h: AnimationDataHandler)
        ensures
            h.sets.len() == 0,
            h.wf(),
    {
        AnimationDataHandler { sets: Vec::new() }
    }
}

} // verus!

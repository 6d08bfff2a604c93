//! The shared environment segment, modelled as a namespace of named byte
//! regions.
//!
//! The controller creates a segment under a well-known name and the patch
//! module opens the same name from inside the target; the name is effectively
//! the protocol version identifier. Writing and reading are plain memory
//! copies with no built-in synchronization. Creation fails when the name
//! collides with a differently-sized existing segment; opening fails fast
//! when the segment does not exist yet; releasing a name is idempotent and
//! safe from both sides.

use vstd::prelude::*;
use vstd::string::StringExecFns;

use crate::codec::{decode_environment, encode_environment, lemma_environment_round_trip,
    spec_decode_environment, spec_encode_environment};
use crate::environment::IslandEnvironment;
use crate::errors::{SegmentCreateError, SegmentMapError};
use crate::text::str_eq;

verus! {

/// The fixed name under which the shared environment segment is published;
/// known at compile time to both sides.
pub fn shared_segment_name() -> (r: String)
    ensures
        r@ == "4F3E8543-40F7-4808-82DC-21E48A6037A7"@,
{
    String::from_str("4F3E8543-40F7-4808-82DC-21E48A6037A7")
}

struct NamedSegment {
    name: String,
    data: Vec<u8>,
}

/// A namespace of named shared byte regions.
pub struct SegmentRegistry {
    segments: Vec<NamedSegment>,
}

/// Every name but `name` is published in `post` exactly as in `pre`, with
/// the same bytes.
pub open spec fn unchanged_except(
    pre: SegmentRegistry,
    post: SegmentRegistry,
    name: Seq<char>,
) -> bool {
    forall|n: Seq<char>|
        n != name ==> #[trigger] post.has_segment(n) == pre.has_segment(n) && (pre.has_segment(n)
            ==> post.segment_data(n) == pre.segment_data(n))
}

impl SegmentRegistry {
    /// Internal invariant: each name is published at most once.
    pub closed spec fn wf(&self) -> bool {
        forall|i: int, j: int|
            0 <= i < j < self.segments@.len() ==> self.segments@[i].name@
                != self.segments@[j].name@
    }

    /// Whether a segment of this name exists.
    pub closed spec fn has_segment(&self, name: Seq<char>) -> bool {
        exists|i: int| 0 <= i < self.segments@.len() && self.segments@[i].name@ == name
    }

    /// The bytes of the segment of this name.
    pub closed spec fn segment_data(&self, name: Seq<char>) -> Seq<u8> {
        let i = choose|i: int| 0 <= i < self.segments@.len() && self.segments@[i].name@ == name;
        self.segments@[i].data@
    }

    /// An empty namespace.
    pub fn new() -> (r: SegmentRegistry)
        ensures
            r.wf(),
            forall|n: Seq<char>| !r.has_segment(n),
    {
        SegmentRegistry { segments: Vec::new() }
    }

    /// The position of the segment of this name, if any.
    fn find(&self, name: &str) -> (r: Option<usize>)
        ensures
            match r {
                Some(i) => i < self.segments@.len() && self.segments@[i as int].name@ == name@,
                None => !self.has_segment(name@),
            },
    {
        let mut i: usize = 0;
        while i < self.segments.len()
            invariant
                i <= self.segments@.len(),
                forall|j: int| 0 <= j < i ==> self.segments@[j].name@ != name@,
            decreases self.segments@.len() - i,
        {
            if str_eq(self.segments[i].name.as_str(), name) {
                return Some(i);
            }
            i = i + 1;
        }
        None
    }

    /// With distinct names, the data of a name is the data of the entry
    /// holding it.
    proof fn lemma_data_at(&self, i: int)
        requires
            self.wf(),
            0 <= i < self.segments@.len(),
        ensures
            self.has_segment(self.segments@[i].name@),
            self.segment_data(self.segments@[i].name@) == self.segments@[i].data@,
    {
        let n = self.segments@[i].name@;
        assert(self.has_segment(n));
        let j = choose|j: int| 0 <= j < self.segments@.len() && self.segments@[j].name@ == n;
        if i != j {
            assert(false);
        }
    }

    /// Create a segment of `size` zeroed bytes under `name`, as the
    /// controller does before launching. Creating a name that already exists
    /// with the same size opens the existing segment and changes nothing;
    /// a name collision with a differently-sized segment is an error.
    pub fn create(&mut self, name: &str, size: usize) -> (r: Result<(), SegmentCreateError>)
        requires
            old(self).wf(),
        ensures
            final(self).wf(),
            !old(self).has_segment(name@) ==> {
                &&& r == Ok::<(), SegmentCreateError>(())
                &&& final(self).has_segment(name@)
                &&& final(self).segment_data(name@) == Seq::new(size as nat, |i: int| 0u8)
            },
            old(self).has_segment(name@) && old(self).segment_data(name@).len() == size ==> r
                == Ok::<(), SegmentCreateError>(()) && *final(self) == *old(self),
            old(self).has_segment(name@) && old(self).segment_data(name@).len() != size ==> r
                == Err::<(), SegmentCreateError>(SegmentCreateError::NameCollision) && *final(self)
                == *old(self),
            unchanged_except(*old(self), *final(self), name@),
    {
        match self.find(name) {
            Option::Some(i) => {
                proof {
                    self.lemma_data_at(i as int);
                }
                if self.segments[i].data.len() == size {
                    Ok(())
                } else {
                    Err(SegmentCreateError::NameCollision)
                }
            },
            Option::None => {
                let ghost prior = self.segments@;
                let mut data: Vec<u8> = Vec::new();
                let mut k: usize = 0;
                while k < size
                    invariant
                        k <= size,
                        data@ =~= Seq::new(k as nat, |i: int| 0u8),
                    decreases size - k,
                {
                    data.push(0);
                    proof {
                        assert(data@ =~= Seq::new(k as nat + 1, |i: int| 0u8));
                    }
                    k = k + 1;
                }
                self.segments.push(NamedSegment { name: name.to_owned(), data });
                proof {
                    let m = prior.len() as int;
                    assert(self.segments@[m].name@ == name@);
                    assert(self.has_segment(name@));
                    self.lemma_data_at(m);
                    assert forall|n: Seq<char>| n != name@ implies #[trigger] self.has_segment(n)
                        == old(self).has_segment(n) && (old(self).has_segment(n)
                        ==> self.segment_data(n) == old(self).segment_data(n)) by {
                        if old(self).has_segment(n) {
                            let j = choose|j: int| 0 <= j < prior.len() && prior[j].name@ == n;
                            assert(self.segments@[j].name@ == n);
                            assert(self.has_segment(n));
                            old(self).lemma_data_at(j);
                            self.lemma_data_at(j);
                        } else if self.has_segment(n) {
                            let j = choose|j: int|
                                0 <= j < self.segments@.len() && self.segments@[j].name@ == n;
                            assert(j < prior.len());
                            assert(prior[j].name@ == n);
                        }
                    }
                    assert(unchanged_except(*old(self), *self, name@));
                }
                Ok(())
            },
        }
    }

    /// Open the segment of this name from inside the target. Fails fast with
    /// a map error when the controller has not created it yet; the opener
    /// must not block waiting for it.
    pub fn map(&self, name: &str) -> (r: Result<(), SegmentMapError>)
        ensures
            self.has_segment(name@) ==> r == Ok::<(), SegmentMapError>(()),
            !self.has_segment(name@) ==> r == Err::<(), SegmentMapError>(SegmentMapError::NotFound),
    {
        match self.find(name) {
            Option::Some(i) => {
                proof {
                    assert(self.has_segment(name@));
                }
                Ok(())
            },
            Option::None => Err(SegmentMapError::NotFound),
        }
    }

    /// Write a record into the segment of this name: a plain memory copy of
    /// the record's wire image, with no synchronization.
    pub fn write(&mut self, name: &str, record: &IslandEnvironment) -> (r: Result<
        (),
        SegmentMapError,
    >)
        requires
            old(self).wf(),
        ensures
            final(self).wf(),
            !old(self).has_segment(name@) ==> r == Err::<(), SegmentMapError>(
                SegmentMapError::NotFound,
            ) && *final(self) == *old(self),
            old(self).has_segment(name@) ==> {
                &&& r == Ok::<(), SegmentMapError>(())
                &&& final(self).has_segment(name@)
                &&& final(self).segment_data(name@) == spec_encode_environment(*record)
            },
            unchanged_except(*old(self), *final(self), name@),
    {
        match self.find(name) {
            Option::Some(i) => {
                let ghost prior = self.segments@;
                proof {
                    assert(old(self).has_segment(name@));
                }
                let image = encode_environment(record);
                let entry = vstd::std_specs::vec::vec_index_mut(&mut self.segments, i);
                let replacement = NamedSegment { name: entry.name.clone(), data: image };
                *entry = replacement;
                proof {
                    assert(self.segments@ =~= prior.update(i as int, self.segments@[i as int]));
                    assert(self.segments@[i as int].name@ == name@);
                    assert forall|a: int, b: int|
                        0 <= a < b < self.segments@.len() implies self.segments@[a].name@
                        != self.segments@[b].name@ by {
                        assert(self.segments@[a].name@ == prior[a].name@);
                        assert(self.segments@[b].name@ == prior[b].name@);
                    }
                    assert(self.has_segment(name@));
                    self.lemma_data_at(i as int);
                    assert forall|n: Seq<char>| n != name@ implies #[trigger] self.has_segment(n)
                        == old(self).has_segment(n) && (old(self).has_segment(n)
                        ==> self.segment_data(n) == old(self).segment_data(n)) by {
                        if old(self).has_segment(n) {
                            let j = choose|j: int| 0 <= j < prior.len() && prior[j].name@ == n;
                            assert(j != i);
                            assert(self.segments@[j].name@ == n);
                            assert(self.has_segment(n));
                            old(self).lemma_data_at(j);
                            self.lemma_data_at(j);
                        } else if self.has_segment(n) {
                            let j = choose|j: int|
                                0 <= j < self.segments@.len() && self.segments@[j].name@ == n;
                            assert(j != i);
                            assert(prior[j].name@ == n);
                        }
                    }
                    assert(unchanged_except(*old(self), *self, name@));
                }
                Ok(())
            },
            Option::None => {
                proof {
                    assert(unchanged_except(*old(self), *self, name@));
                }
                Err(SegmentMapError::NotFound)
            },
        }
    }

    /// Read back the segment's bytes: a plain memory copy.
    pub fn read_bytes(&self, name: &str) -> (r: Result<Vec<u8>, SegmentMapError>)
        requires
            self.wf(),
        ensures
            !self.has_segment(name@) ==> r == Err::<Vec<u8>, SegmentMapError>(
                SegmentMapError::NotFound,
            ),
            self.has_segment(name@) ==> (r matches Ok(v) && v@ == self.segment_data(name@)),
    {
        match self.find(name) {
            Option::Some(i) => {
                proof {
                    self.lemma_data_at(i as int);
                }
                let mut out: Vec<u8> = Vec::new();
                let data = &self.segments[i].data;
                let mut k: usize = 0;
                while k < data.len()
                    invariant
                        k <= data@.len(),
                        data@ == self.segments@[i as int].data@,
                        i < self.segments@.len(),
                        out@ =~= data@.subrange(0, k as int),
                    decreases data@.len() - k,
                {
                    out.push(data[k]);
                    proof {
                        assert(out@ =~= data@.subrange(0, k as int + 1));
                    }
                    k = k + 1;
                }
                proof {
                    assert(out@ =~= data@);
                }
                Ok(out)
            },
            Option::None => Err(SegmentMapError::NotFound),
        }
    }

    /// Read the record the segment of this name carries. `Ok(None)` means
    /// the segment exists but its bytes are not a record image — the
    /// silent-corruption risk of a layout mismatch, surfaced as a value.
    pub fn read_record(&self, name: &str) -> (r: Result<
        Option<IslandEnvironment>,
        SegmentMapError,
    >)
        requires
            self.wf(),
        ensures
            !self.has_segment(name@) ==> r == Err::<Option<IslandEnvironment>, SegmentMapError>(
                SegmentMapError::NotFound,
            ),
            self.has_segment(name@) ==> r == Ok::<Option<IslandEnvironment>, SegmentMapError>(
                spec_decode_environment(self.segment_data(name@)),
            ),
    {
        match self.read_bytes(name) {
            Ok(bytes) => Ok(decode_environment(bytes.as_slice())),
            Err(e) => Err(e),
        }
    }

    /// Writing a record through the segment and reading it back on the same
    /// side returns bit-identical values for all fields: once a segment holds
    /// a record's wire image, as [`SegmentRegistry::write`] leaves it,
    /// [`SegmentRegistry::read_record`] yields exactly that record.
    pub proof fn lemma_segment_round_trip(&self, name: Seq<char>, record: IslandEnvironment)
        requires
            self.has_segment(name),
            self.segment_data(name) == spec_encode_environment(record),
        ensures
            spec_decode_environment(self.segment_data(name)) == Some(record),
    {
        lemma_environment_round_trip(record);
    }

    /// Release the segment of this name. Idempotent and safe to call from
    /// both the controller and the target's own shutdown path: releasing an
    /// absent name changes nothing.
    pub fn close(&mut self, name: &str)
        requires
            old(self).wf(),
        ensures
            final(self).wf(),
            !final(self).has_segment(name@),
            unchanged_except(*old(self), *final(self), name@),
    {
        match self.find(name) {
            Option::Some(i) => {
                let ghost prior = self.segments@;
                self.segments.remove(i);
                proof {
                    assert(self.segments@ =~= prior.remove(i as int));
                    assert forall|a: int, b: int|
                        0 <= a < b < self.segments@.len() implies self.segments@[a].name@
                        != self.segments@[b].name@ by {
                        if b < i {
                        } else if a < i {
                            assert(self.segments@[a].name@ == prior[a].name@);
                            assert(self.segments@[b].name@ == prior[b + 1].name@);
                        } else {
                            assert(self.segments@[a].name@ == prior[a + 1].name@);
                            assert(self.segments@[b].name@ == prior[b + 1].name@);
                        }
                    }
                    assert forall|j: int|
                        0 <= j < self.segments@.len() implies self.segments@[j].name@ != name@ by {
                        if j < i {
                            assert(self.segments@[j].name@ == prior[j].name@);
                        } else {
                            assert(self.segments@[j].name@ == prior[j + 1].name@);
                        }
                    }
                    assert(!self.has_segment(name@));
                    assert forall|n: Seq<char>| n != name@ implies #[trigger] self.has_segment(n)
                        == old(self).has_segment(n) && (old(self).has_segment(n)
                        ==> self.segment_data(n) == old(self).segment_data(n)) by {
                        if old(self).has_segment(n) {
                            let j = choose|j: int| 0 <= j < prior.len() && prior[j].name@ == n;
                            assert(j != i);
                            if j < i {
                                assert(self.segments@[j].name@ == n);
                            } else {
                                assert(self.segments@[j - 1].name@ == n);
                            }
                            assert(self.has_segment(n));
                            let k = choose|k: int|
                                0 <= k < self.segments@.len() && self.segments@[k].name@ == n;
                            old(self).lemma_data_at(j);
                            self.lemma_data_at(k);
                            if k < i {
                                assert(prior[k].name@ == n);
                                assert(k == j);
                            } else {
                                assert(prior[k + 1].name@ == n);
                                assert(k + 1 == j);
                            }
                        } else if self.has_segment(n) {
                            let j = choose|j: int|
                                0 <= j < self.segments@.len() && self.segments@[j].name@ == n;
                            if j < i {
                                assert(prior[j].name@ == n);
                            } else {
                                assert(prior[j + 1].name@ == n);
                            }
                        }
                    }
                    assert(unchanged_except(*old(self), *self, name@));
                }
            },
            Option::None => {
                proof {
                    assert(!self.has_segment(name@));
                    assert(unchanged_except(*old(self), *self, name@));
                }
            },
        }
    }
}

} // verus!

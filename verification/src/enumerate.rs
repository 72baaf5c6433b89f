//! Lazy, finite, forward-only enumeration of displays: walk the adapters,
//! and within each adapter its outputs, yielding one [`Display`] per
//! duplication-capable output.
//!
//! The walk is an explicit state machine. Each backend response is handed in
//! as an [`OutputProbe`] or as the next adapter handle, and every step
//! reports the releases and reference-count increments owed to the backend.

use vstd::prelude::*;
use crate::backend::Action;
use crate::display::Display;
use crate::display::OutputDescriptor;
use crate::status::CaptureError;
use crate::status::error_of;
use crate::status::failed;
use crate::status::translate_spec;
use crate::status::wrap_hresult;

verus! {

/// The backend's answer to probing one output index of the current adapter.
#[derive(Clone, Copy, Debug)]
pub enum OutputProbe {
    /// No output exists at the probed index: the adapter is exhausted.
    Missing,
    /// An output exists but could not be upgraded to its
    /// duplication-capable variant; it cannot usefully be yielded.
    Plain {
        /// Handle of the generic output.
        output: u64,
    },
    /// An output exists and was upgraded to its duplication-capable variant.
    Duplicable {
        /// Handle of the generic output.
        output: u64,
        /// Handle of the upgraded, duplication-capable output.
        upgraded: u64,
        /// The output's descriptor.
        desc: OutputDescriptor,
    },
}

/// What one enumeration step decided.
#[derive(Clone, Copy, Debug)]
pub enum ProbeStep {
    /// The current adapter is exhausted and was released; the walk must
    /// advance to the next adapter.
    AdapterDone,
    /// A display was produced; the display index advanced past its output.
    Yielded(Display),
}

/// The enumeration state: the factory held for the walker's whole life, the
/// current adapter (if any), the index of the current adapter, and the index
/// of the next output to probe. The display index is only ever valid
/// relative to the current adapter; the adapter index never decreases.
#[derive(Clone, Copy, Debug)]
pub struct Displays {
    /// Backend handle of the enumeration factory.
    pub factory: u64,
    /// Backend handle of the current adapter, if one is held.
    pub adapter: Option<u64>,
    /// Index of the current adapter; monotonic.
    pub nadapter: u32,
    /// Index of the next output to probe on the current adapter.
    pub ndisplay: u32,
}

impl Displays {
    /// Starts the walk: translates the factory-creation status, and on
    /// success positions the walk at adapter index zero, holding whatever
    /// adapter the backend reported there (none means the sequence is
    /// immediately exhausted).
    pub fn new(factory_status: i32, factory: u64, first_adapter: Option<u64>) -> (r: Result<
        Displays,
        CaptureError,
    >)
        ensures
            match r {
                Ok(d) => {
                    &&& !failed(translate_spec(factory_status))
                    &&& d.factory == factory
                    &&& d.adapter == first_adapter
                    &&& d.nadapter == 0
                    &&& d.ndisplay == 0
                },
                Err(e) => failed(translate_spec(factory_status)) && e == error_of(
                    translate_spec(factory_status),
                ),
            },
    {
        match wrap_hresult(factory_status) {
            Ok(_) => Ok(Displays { factory, adapter: first_adapter, nadapter: 0, ndisplay: 0 }),
            Err(e) => Err(e),
        }
    }

    /// Whether an adapter is currently held. Once this is false and no
    /// further adapter exists, the sequence is exhausted for good.
    pub fn has_adapter(&self) -> (r: bool)
        ensures
            r == (self.adapter is Some),
    {
        self.adapter.is_some()
    }

    /// One probe of the current adapter, mirroring the backend's answer:
    /// a missing output exhausts the adapter and releases it; an output
    /// that cannot be upgraded does the same (after advancing the display
    /// index past it); an upgraded output advances the display index, takes
    /// one shared reference on the adapter for the new display, releases
    /// the temporary generic output handle, and yields the display.
    pub fn read_and_invalidate(&mut self, probe: &OutputProbe) -> (r: (ProbeStep, Vec<Action>))
        requires
            old(self).adapter is Some,
            old(self).ndisplay < u32::MAX,
        ensures
            final(self).factory == old(self).factory,
            final(self).nadapter == old(self).nadapter,
            match *probe {
                OutputProbe::Missing => {
                    &&& r.0 is AdapterDone
                    &&& final(self).adapter is None
                    &&& final(self).ndisplay == old(self).ndisplay
                    &&& r.1@.len() == 1
                    &&& old(self).adapter matches Some(a) && r.1@[0] == (Action::ReleaseAdapter {
                        adapter: a,
                    })
                },
                OutputProbe::Plain { output } => {
                    &&& r.0 is AdapterDone
                    &&& final(self).adapter is None
                    &&& final(self).ndisplay == old(self).ndisplay + 1
                    &&& r.1@.len() == 2
                    &&& r.1@[0] == (Action::ReleaseOutput { output })
                    &&& old(self).adapter matches Some(a) && r.1@[1] == (Action::ReleaseAdapter {
                        adapter: a,
                    })
                },
                OutputProbe::Duplicable { output, upgraded, desc } => {
                    &&& final(self).adapter == old(self).adapter
                    &&& final(self).ndisplay == old(self).ndisplay + 1
                    &&& old(self).adapter matches Some(a) && r.0 == ProbeStep::Yielded(
                        Display { output: upgraded, adapter: a, desc },
                    )
                    &&& r.1@.len() == 2
                    &&& r.1@[0] == (Action::ReleaseOutput { output })
                    &&& old(self).adapter matches Some(a) && r.1@[1] == (Action::AddRefAdapter {
                        adapter: a,
                    })
                },
            },
    {
        let a = self.adapter.unwrap();
        match probe {
            OutputProbe::Missing => {
                let mut acts: Vec<Action> = Vec::new();
                acts.push(Action::ReleaseAdapter { adapter: a });
                self.adapter = None;
                (ProbeStep::AdapterDone, acts)
            },
            OutputProbe::Plain { output } => {
                self.ndisplay = self.ndisplay + 1;
                let mut acts: Vec<Action> = Vec::new();
                acts.push(Action::ReleaseOutput { output: *output });
                acts.push(Action::ReleaseAdapter { adapter: a });
                self.adapter = None;
                (ProbeStep::AdapterDone, acts)
            },
            OutputProbe::Duplicable { output, upgraded, desc } => {
                self.ndisplay = self.ndisplay + 1;
                let mut acts: Vec<Action> = Vec::new();
                acts.push(Action::ReleaseOutput { output: *output });
                acts.push(Action::AddRefAdapter { adapter: a });
                (ProbeStep::Yielded(Display { output: *upgraded, adapter: a, desc: *desc }), acts)
            },
        }
    }

    /// Replaces an exhausted adapter: the adapter index advances (it is
    /// never decremented), the display index resets to zero, and the walk
    /// holds whatever adapter the backend reported at the new index (none
    /// means the sequence is exhausted).
    pub fn advance_adapter(&mut self, next: Option<u64>)
        requires
            old(self).adapter is None,
            old(self).nadapter < u32::MAX,
        ensures
            final(self).factory == old(self).factory,
            final(self).nadapter == old(self).nadapter + 1,
            final(self).ndisplay == 0,
            final(self).adapter == next,
    {
        self.ndisplay = 0;
        self.nadapter = self.nadapter + 1;
        self.adapter = next;
    }

    /// The releases owed when the walker is dropped: the factory, then the
    /// current adapter if one is still held.
    pub fn release_actions(&self) -> (r: Vec<Action>)
        ensures
            match self.adapter {
                Some(a) => {
                    &&& r@.len() == 2
                    &&& r@[0] == (Action::ReleaseFactory { factory: self.factory })
                    &&& r@[1] == (Action::ReleaseAdapter { adapter: a })
                },
                None => {
                    &&& r@.len() == 1
                    &&& r@[0] == (Action::ReleaseFactory { factory: self.factory })
                },
            },
    {
        let mut r: Vec<Action> = Vec::new();
        r.push(Action::ReleaseFactory { factory: self.factory });
        match self.adapter {
            Some(a) => {
                r.push(Action::ReleaseAdapter { adapter: a });
            },
            None => {},
        }
        r
    }
}

/// One output in a pure description of a machine's display topology.
#[derive(Clone, Copy, Debug)]
pub struct OutputModel {
    /// Handle the backend reports for the generic output.
    pub output: u64,
    /// Handle the upgrade to the duplication-capable variant would yield.
    pub upgraded: u64,
    /// Whether the upgrade succeeds for this output.
    pub duplicable: bool,
    /// The output's descriptor.
    pub desc: OutputDescriptor,
}

/// One adapter in a pure description of a machine's display topology.
#[derive(Clone, Debug)]
pub struct AdapterModel {
    /// The adapter's backend handle.
    pub id: u64,
    /// The adapter's outputs, in probe order.
    pub outputs: Vec<OutputModel>,
}

/// The display yielded for a duplication-capable output of an adapter.
pub open spec fn display_of(adapter: u64, o: OutputModel) -> Display {
    Display { output: o.upgraded, adapter: adapter, desc: o.desc }
}

/// Length of the longest duplication-capable prefix of an adapter's
/// outputs. Enumeration of an adapter stops at its first output that
/// cannot be upgraded, so only this prefix is ever yielded.
pub open spec fn capable_prefix_len(outputs: Seq<OutputModel>) -> int
    decreases outputs.len(),
{
    if outputs.len() == 0 {
        0
    } else if !outputs[0].duplicable {
        0
    } else {
        1 + capable_prefix_len(outputs.drop_first())
    }
}

/// The displays the walk yields from one adapter.
pub open spec fn adapter_yield(a: AdapterModel) -> Seq<Display> {
    Seq::new(
        capable_prefix_len(a.outputs@) as nat,
        |i: int| display_of(a.id, a.outputs@[i]),
    )
}

/// The full sequence of displays the walk yields over a topology:
/// adapter-index-major, display-index-minor, both ascending, each adapter
/// visited exactly once.
pub open spec fn yielded_spec(adapters: Seq<AdapterModel>) -> Seq<Display>
    decreases adapters.len(),
{
    if adapters.len() == 0 {
        Seq::empty()
    } else {
        adapter_yield(adapters[0]) + yielded_spec(adapters.drop_first())
    }
}

/// Number of duplication-capable outputs of one adapter.
pub open spec fn capable_count(outputs: Seq<OutputModel>) -> int
    decreases outputs.len(),
{
    if outputs.len() == 0 {
        0
    } else {
        (if outputs[0].duplicable {
            1int
        } else {
            0int
        }) + capable_count(outputs.drop_first())
    }
}

/// Every duplication-capable output of the sequence precedes every output
/// that is not capable.
pub open spec fn capable_first(outputs: Seq<OutputModel>) -> bool {
    forall|i: int, j: int|
        0 <= i < j < outputs.len() && outputs[j].duplicable ==> outputs[i].duplicable
}

/// Sum of duplication-capable outputs across all adapters.
pub open spec fn total_capable(adapters: Seq<AdapterModel>) -> int
    decreases adapters.len(),
{
    if adapters.len() == 0 {
        0
    } else {
        capable_count(adapters[0].outputs@) + total_capable(adapters.drop_first())
    }
}

/// The capable prefix is within bounds, consists of capable outputs, and
/// ends at the first output that is not capable.
pub proof fn lemma_capable_prefix_len(outputs: Seq<OutputModel>)
    ensures
        0 <= capable_prefix_len(outputs) <= outputs.len(),
        forall|i: int| 0 <= i < capable_prefix_len(outputs) ==> outputs[i].duplicable,
        capable_prefix_len(outputs) < outputs.len() ==> !outputs[capable_prefix_len(
            outputs,
        )].duplicable,
    decreases outputs.len(),
{
    if outputs.len() == 0 {
    } else if !outputs[0].duplicable {
    } else {
        lemma_capable_prefix_len(outputs.drop_first());
        assert forall|i: int| 0 <= i < capable_prefix_len(outputs) implies outputs[i].duplicable by {
            if i > 0 {
                assert(outputs.drop_first()[i - 1] == outputs[i]);
            }
        }
        if capable_prefix_len(outputs) < outputs.len() {
            assert(outputs.drop_first()[capable_prefix_len(outputs) - 1] == outputs[
                capable_prefix_len(outputs)
            ]);
        }
    }
}

/// The exact characterization in the other direction: a bound below which
/// every output is capable, and at which (if within bounds) the output is
/// not, is the capable prefix length.
pub proof fn lemma_prefix_len_is(outputs: Seq<OutputModel>, n: int)
    requires
        0 <= n <= outputs.len(),
        forall|i: int| 0 <= i < n ==> outputs[i].duplicable,
        n < outputs.len() ==> !outputs[n].duplicable,
    ensures
        capable_prefix_len(outputs) == n,
    decreases outputs.len(),
{
    if n == 0 {
    } else {
        assert(outputs[0].duplicable);
        assert forall|i: int| 0 <= i < n - 1 implies outputs.drop_first()[i].duplicable by {
            assert(outputs.drop_first()[i] == outputs[i + 1]);
        }
        if n - 1 < outputs.drop_first().len() {
            assert(outputs.drop_first()[n - 1] == outputs[n]);
        }
        lemma_prefix_len_is(outputs.drop_first(), n - 1);
    }
}

/// Extending a prefix of the topology by one adapter appends exactly that
/// adapter's yield.
pub proof fn lemma_yielded_take_succ(adapters: Seq<AdapterModel>, k: int)
    requires
        0 <= k < adapters.len(),
    ensures
        yielded_spec(adapters.take(k + 1)) == yielded_spec(adapters.take(k)) + adapter_yield(
            adapters[k],
        ),
    decreases k,
{
    if k == 0 {
        assert(adapters.take(1).drop_first() =~= Seq::<AdapterModel>::empty());
        assert(adapters.take(1)[0] == adapters[0]);
        assert(adapters.take(1).len() == 1);
        assert(yielded_spec(adapters.take(1)) == adapter_yield(adapters[0]) + yielded_spec(
            Seq::<AdapterModel>::empty(),
        ));
        assert(adapters.take(0).len() == 0);
        assert(yielded_spec(adapters.take(0)) == Seq::<Display>::empty());
        assert(adapter_yield(adapters[0]) + Seq::<Display>::empty() =~= Seq::<
            Display,
        >::empty() + adapter_yield(adapters[0]));
    } else {
        let df = adapters.drop_first();
        lemma_yielded_take_succ(df, k - 1);
        assert(adapters.take(k + 1).drop_first() =~= df.take(k));
        assert(adapters.take(k).drop_first() =~= df.take(k - 1));
        assert(adapters.take(k + 1)[0] == adapters[0]);
        assert(adapters.take(k)[0] == adapters[0]);
        assert(df[k - 1] == adapters[k]);
        assert(adapters.take(k + 1).len() == k + 1);
        assert(adapters.take(k).len() == k);
        assert(yielded_spec(adapters.take(k + 1)) == adapter_yield(adapters[0]) + yielded_spec(
            df.take(k),
        ));
        assert(yielded_spec(adapters.take(k)) == adapter_yield(adapters[0]) + yielded_spec(
            df.take(k - 1),
        ));
        assert(yielded_spec(df.take(k)) == yielded_spec(df.take(k - 1)) + adapter_yield(
            adapters[k],
        ));
        assert(adapter_yield(adapters[0]) + (yielded_spec(df.take(k - 1)) + adapter_yield(
            adapters[k],
        )) =~= (adapter_yield(adapters[0]) + yielded_spec(df.take(k - 1))) + adapter_yield(
            adapters[k],
        ));
    }
}

/// An adapter with zero outputs is skipped: it contributes nothing to the
/// yielded sequence, which is the same as if the adapter were absent.
pub proof fn lemma_empty_adapter_skipped(adapters: Seq<AdapterModel>, k: int)
    requires
        0 <= k < adapters.len(),
        adapters[k].outputs@.len() == 0,
    ensures
        yielded_spec(adapters) == yielded_spec(adapters.remove(k)),
    decreases k,
{
    if k == 0 {
        assert(adapter_yield(adapters[0]) =~= Seq::<Display>::empty());
        assert(adapter_yield(adapters[0]) + yielded_spec(adapters.drop_first())
            =~= yielded_spec(adapters.drop_first()));
        assert(adapters.remove(0) =~= adapters.drop_first());
    } else {
        let df = adapters.drop_first();
        assert(df[k - 1] == adapters[k]);
        lemma_empty_adapter_skipped(df, k - 1);
        assert(adapters.remove(k).drop_first() =~= df.remove(k - 1));
        assert(adapters.remove(k)[0] == adapters[0]);
    }
}

/// A sequence without any capable output has capable count zero.
proof fn lemma_capable_count_zero(outputs: Seq<OutputModel>)
    requires
        forall|i: int| 0 <= i < outputs.len() ==> !outputs[i].duplicable,
    ensures
        capable_count(outputs) == 0,
    decreases outputs.len(),
{
    if outputs.len() > 0 {
        assert forall|i: int|
            0 <= i < outputs.drop_first().len() implies !outputs.drop_first()[i].duplicable by {
            assert(outputs.drop_first()[i] == outputs[i + 1]);
        }
        lemma_capable_count_zero(outputs.drop_first());
    }
}

/// When the capable outputs come first, the capable prefix holds all of
/// them: its length is the capable count.
proof fn lemma_prefix_eq_count(outputs: Seq<OutputModel>)
    requires
        capable_first(outputs),
    ensures
        capable_prefix_len(outputs) == capable_count(outputs),
    decreases outputs.len(),
{
    if outputs.len() == 0 {
    } else {
        let df = outputs.drop_first();
        assert(forall|i: int| 0 <= i < df.len() ==> df[i] == outputs[i + 1]);
        if !outputs[0].duplicable {
            assert forall|i: int| 0 <= i < outputs.len() implies !outputs[i].duplicable by {
                if i > 0 && outputs[i].duplicable {
                    assert(outputs[0].duplicable);
                }
            }
            lemma_capable_count_zero(outputs);
        } else {
            assert(capable_first(df));
            lemma_prefix_eq_count(df);
        }
    }
}

/// The walk terminates after exactly the sum of duplication-capable
/// outputs across all adapters, provided each adapter lists its capable
/// outputs before any incapable one.
pub proof fn lemma_yield_count(adapters: Seq<AdapterModel>)
    requires
        forall|k: int| 0 <= k < adapters.len() ==> capable_first(
            #[trigger] adapters[k].outputs@,
        ),
    ensures
        yielded_spec(adapters).len() == total_capable(adapters),
    decreases adapters.len(),
{
    if adapters.len() > 0 {
        let df = adapters.drop_first();
        assert forall|k: int| 0 <= k < df.len() implies capable_first(
            #[trigger] df[k].outputs@,
        ) by {
            assert(df[k] == adapters[k + 1]);
        }
        lemma_yield_count(df);
        lemma_prefix_eq_count(adapters[0].outputs@);
        lemma_capable_prefix_len(adapters[0].outputs@);
    }
}

/// Runs the walk to exhaustion over a pure topology: positions it on the
/// first adapter, repeats the per-output step, and advances past exhausted
/// adapters (including those with zero outputs) without revisiting any.
/// Returns exactly the duplication-capable prefix of each adapter's
/// outputs, adapter-index-major, display-index-minor.
#[verifier::loop_isolation(false)]
pub fn enumerate_all(factory: u64, adapters: &Vec<AdapterModel>) -> (r: Vec<Display>)
    requires
        adapters@.len() < u32::MAX,
        forall|k: int| 0 <= k < adapters@.len() ==> #[trigger] adapters@[k].outputs@.len()
            < u32::MAX,
    ensures
        r@ == yielded_spec(adapters@),
{
    let mut displays: Vec<Display> = Vec::new();
    let first: Option<u64> = if adapters.len() > 0 {
        Some(adapters[0].id)
    } else {
        None
    };
    let mut walker = Displays { factory, adapter: first, nadapter: 0, ndisplay: 0 };
    proof {
        assert(adapters@.take(0) =~= Seq::<AdapterModel>::empty());
        if adapters@.len() > 0 {
            assert(displays@ =~= yielded_spec(adapters@.take(0)) + Seq::new(
                0nat,
                |i: int| display_of(adapters@[0].id, adapters@[0].outputs@[i]),
            ));
        }
    }
    while walker.adapter.is_some()
        invariant
            walker.factory == factory,
            walker.nadapter <= adapters@.len(),
            walker.adapter == (if walker.nadapter < adapters@.len() {
                Some(adapters@[walker.nadapter as int].id)
            } else {
                None::<u64>
            }),
            walker.nadapter < adapters@.len() ==> walker.ndisplay <= adapters@[
                walker.nadapter as int
            ].outputs@.len(),
            walker.nadapter < adapters@.len() ==> (forall|i: int|
                0 <= i < walker.ndisplay ==> adapters@[walker.nadapter as int].outputs@[
                    i
                ].duplicable),
            walker.nadapter < adapters@.len() ==> displays@ == yielded_spec(
                adapters@.take(walker.nadapter as int),
            ) + Seq::new(
                walker.ndisplay as nat,
                |i: int| display_of(
                    adapters@[walker.nadapter as int].id,
                    adapters@[walker.nadapter as int].outputs@[i],
                ),
            ),
            walker.nadapter >= adapters@.len() ==> displays@ == yielded_spec(adapters@),
        decreases
            adapters@.len() - walker.nadapter,
            (if walker.nadapter < adapters@.len() {
                adapters@[walker.nadapter as int].outputs@.len() + 1 - walker.ndisplay
            } else {
                0int
            }),
    {
        let ai = walker.nadapter as usize;
        let nd = walker.ndisplay as usize;
        let a = &adapters[ai];
        let probe = if nd < a.outputs.len() {
            let o = &a.outputs[nd];
            if o.duplicable {
                OutputProbe::Duplicable { output: o.output, upgraded: o.upgraded, desc: o.desc }
            } else {
                OutputProbe::Plain { output: o.output }
            }
        } else {
            OutputProbe::Missing
        };
        let (step, _acts) = walker.read_and_invalidate(&probe);
        match step {
            ProbeStep::Yielded(d) => {
                displays.push(d);
                proof {
                    assert(displays@ =~= yielded_spec(adapters@.take(ai as int)) + Seq::new(
                        (nd + 1) as nat,
                        |i: int| display_of(adapters@[ai as int].id, adapters@[ai as int].outputs@[i]),
                    ));
                }
            },
            ProbeStep::AdapterDone => {
                proof {
                    lemma_prefix_len_is(a.outputs@, nd as int);
                    lemma_yielded_take_succ(adapters@, ai as int);
                    assert(adapter_yield(adapters@[ai as int]) =~= Seq::new(
                        nd as nat,
                        |i: int| display_of(adapters@[ai as int].id, adapters@[ai as int].outputs@[i]),
                    ));
                }
                let next: Option<u64> = if walker.nadapter as usize + 1 < adapters.len() {
                    Some(adapters[walker.nadapter as usize + 1].id)
                } else {
                    None
                };
                walker.advance_adapter(next);
                proof {
                    if (ai + 1) < adapters@.len() {
                        assert(displays@ =~= yielded_spec(adapters@.take(ai + 1 as int)) + Seq::new(
                            0nat,
                            |i: int| display_of(
                                adapters@[ai + 1 as int].id,
                                adapters@[ai + 1 as int].outputs@[i],
                            ),
                        ));
                    } else {
                        assert(adapters@.take(ai + 1 as int) =~= adapters@);
                    }
                }
            },
        }
    }
    proof {
        if walker.nadapter < adapters@.len() {
            assert(false);
        }
    }
    displays
}

} // verus!


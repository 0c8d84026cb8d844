use vstd::prelude::*;

use crate::addon::{spec_all_known, spec_map_entry, AddonModel, CanonicalAddon};
use crate::catalog::CatalogEntry;
use crate::endpoint::{base_endpoint, spec_base_endpoint};
use crate::error::Error;

verus! {

/// The phase of one fetch operation.  A fetcher is constructed awaiting its
/// first page; a short page ends it, and any failure is terminal.
#[derive(Clone, Copy, Debug, PartialEq, Eq, Structural)]
pub enum FetchPhase {
    /// Waiting for the response to the request at the current offset.
    AwaitingPage,
    /// The most recent page was short: the catalog is exhausted.
    Done,
    /// A transport, protocol or decode failure ended the fetch.
    Failed,
}

/// Every entry of the page maps successfully (all eligible index entries
/// carry known game-variant-type ids).
pub open spec fn spec_page_ok(entries: Seq<CatalogEntry>) -> bool {
    forall|i: int| 0 <= i < entries.len() ==> spec_all_known(#[trigger] entries[i])
}

/// The canonical records of one decoded page, in page order.
pub open spec fn spec_page_models(entries: Seq<CatalogEntry>) -> Seq<AddonModel> {
    entries.map_values(|e: CatalogEntry| spec_map_entry(e))
}

/// The pagination state machine.  The caller owns the transport: it issues
/// one request per `next_endpoint`, decodes the body, and hands each page to
/// `on_page` (or any HTTP-level failure to `fail`) until the fetcher leaves
/// the awaiting phase; `result` then yields either the complete list of
/// canonical records or the single error — never a partial list.
pub struct Fetcher {
    /// The credential attached to every request; its absence is rejected at
    /// construction, before any network activity.
    pub api_key: String,
    /// The fixed page size P of the pagination protocol.
    pub page_size: usize,
    /// The zero-based offset of the next request.
    pub offset: usize,
    /// The accumulated canonical records of the pages seen so far.
    pub addons: Vec<CanonicalAddon>,
    pub phase: FetchPhase,
    pub error: Option<Error>,
}

impl Fetcher {
    /// The fetcher is failed exactly when it holds an error, and a failed
    /// fetcher has discarded everything it accumulated.
    pub open spec fn wf(self) -> bool {
        &&& (self.phase is Failed <==> self.error is Some)
        &&& (self.phase is Failed ==> self.addons@.len() == 0)
    }

    /// Builds a fetcher for one full catalog walk.  A missing API credential
    /// is a configuration error, reported here, before any request is made.
    pub fn new(page_size: usize, api_key: Option<String>) -> (r: Result<Fetcher, Error>)
        ensures
            api_key matches Some(k) ==> (r matches Ok(f) && f.wf() && f.api_key == k
                && f.page_size == page_size && f.offset == 0 && f.addons@.len() == 0 && f.phase
                == FetchPhase::AwaitingPage),
            api_key is None ==> r == Err::<Fetcher, Error>(Error::Configuration),
    {
        match api_key {
            Some(k) => Ok(
                Fetcher {
                    api_key: k,
                    page_size,
                    offset: 0,
                    addons: Vec::new(),
                    phase: FetchPhase::AwaitingPage,
                    error: None,
                },
            ),
            None => Err(Error::Configuration),
        }
    }

    /// The endpoint of the next page request: fixed base, the page size, and
    /// the current zero-based offset.
    pub fn next_endpoint(&self) -> (r: String)
        requires
            self.phase is AwaitingPage,
        ensures
            r@ == spec_base_endpoint(self.page_size as nat, self.offset as nat),
    {
        base_endpoint(self.page_size, self.offset)
    }

    /// Consumes one successfully decoded page: maps every entry, appends the
    /// results, advances the offset by the page size, and decides whether to
    /// continue (`Ok(true)`), to stop on a short page (`Ok(false)`), or to
    /// fail on an entry that does not map (`Err`, discarding everything).
    pub fn on_page(&mut self, entries: &Vec<CatalogEntry>) -> (r: Result<bool, Error>)
        requires
            old(self).wf(),
            old(self).phase is AwaitingPage,
            old(self).offset + old(self).page_size <= usize::MAX,
        ensures
            final(self).wf(),
            final(self).api_key == old(self).api_key,
            final(self).page_size == old(self).page_size,
            spec_page_ok(entries@) ==> (final(self).addons.deep_view()
                == old(self).addons.deep_view() + spec_page_models(entries@)
                && final(self).offset == old(self).offset + old(self).page_size),
            spec_page_ok(entries@) && entries@.len() >= old(self).page_size
                ==> (final(self).phase is AwaitingPage && r == Ok::<bool, Error>(true)),
            spec_page_ok(entries@) && entries@.len() < old(self).page_size
                ==> (final(self).phase is Done && r == Ok::<bool, Error>(false)),
            !spec_page_ok(entries@) ==> (final(self).phase is Failed
                && final(self).addons@.len() == 0 && final(self).error == Some(Error::Decode)
                && r == Err::<bool, Error>(Error::Decode)),
    {
        let ghost base = self.addons@.len() as int;
        let n = entries.len();
        let mut j: usize = 0;
        while j < n
            invariant
                n == entries@.len(),
                j <= n,
                self.api_key == old(self).api_key,
                self.page_size == old(self).page_size,
                self.offset == old(self).offset,
                self.phase == old(self).phase,
                self.error == old(self).error,
                old(self).wf(),
                old(self).phase is AwaitingPage,
                base == old(self).addons@.len(),
                self.addons@.len() == base + j,
                forall|t: int| 0 <= t < base ==> #[trigger] self.addons@[t] == old(self).addons@[t],
                forall|t: int|
                    0 <= t < j ==> spec_all_known(#[trigger] entries@[t]) && self.addons@[base + t]@
                        == spec_map_entry(entries@[t]),
            decreases n - j,
        {
            match CanonicalAddon::from_entry(&entries[j]) {
                Ok(a) => {
                    self.addons.push(a);
                    j += 1;
                },
                Err(_) => {
                    proof {
                        assert(!spec_all_known(entries@[j as int]));
                        assert(!spec_page_ok(entries@));
                    }
                    self.addons = Vec::new();
                    self.phase = FetchPhase::Failed;
                    self.error = Some(Error::Decode);
                    return Err(Error::Decode);
                },
            }
        }
        proof {
            assert(spec_page_ok(entries@));
            let ghost combined = old(self).addons.deep_view() + spec_page_models(entries@);
            assert forall|t: int| 0 <= t < base + n implies self.addons.deep_view()[t]
                == combined[t] by {
                if t < base {
                    assert(self.addons@[t] == old(self).addons@[t]);
                } else {
                    assert(self.addons@[t]@ == spec_map_entry(entries@[t - base]));
                }
            }
            assert(self.addons.deep_view() =~= combined);
        }
        self.offset = self.offset + self.page_size;
        if n < self.page_size {
            self.phase = FetchPhase::Done;
            Ok(false)
        } else {
            Ok(true)
        }
    }

    /// Records a transport- or protocol-level failure.  The failure is
    /// terminal and the records accumulated so far are discarded: the fetch
    /// is all-or-nothing.
    pub fn fail(&mut self, err: Error)
        ensures
            final(self).wf(),
            final(self).phase is Failed,
            final(self).addons@.len() == 0,
            final(self).error == Some(err),
            final(self).api_key == old(self).api_key,
            final(self).page_size == old(self).page_size,
            final(self).offset == old(self).offset,
    {
        self.addons = Vec::new();
        self.phase = FetchPhase::Failed;
        self.error = Some(err);
    }

    /// The outcome of the whole operation: the complete, consistent list of
    /// canonical records, or the single error that ended the fetch.
    pub fn result(self) -> (r: Result<Vec<CanonicalAddon>, Error>)
        requires
            self.wf(),
            self.phase is Done || self.phase is Failed,
        ensures
            self.phase is Done ==> (r matches Ok(v) && v == self.addons),
            self.phase is Failed ==> (self.error matches Some(er) && r == Err::<
                Vec<CanonicalAddon>,
                Error,
            >(er)),
    {
        match self.phase {
            FetchPhase::Failed => match self.error {
                Some(er) => Err(er),
                None => {
                    proof {
                        assert(false);
                    }
                    Err(Error::Decode)
                },
            },
            _ => Ok(self.addons),
        }
    }
}

} // verus!

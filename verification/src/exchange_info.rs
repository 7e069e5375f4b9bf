use vstd::prelude::*;
use crate::errors::OpenLimitError;
use crate::strutil::str_eq;

verus! {

/// Trading constraints the backend publishes for one market pair. The sizes
/// are carried as the backend's exact decimal strings.
#[derive(Debug, PartialEq, Eq)]
pub struct SymbolInfo {
    pub symbol: String,
    pub tick_size: String,
    pub min_size: String,
}

impl Clone for SymbolInfo {
    fn clone(&self) -> (r: Self)
        ensures
            r == *self,
    {
        let r = SymbolInfo {
            symbol: self.symbol.clone(),
            tick_size: self.tick_size.clone(),
            min_size: self.min_size.clone(),
        };
        proof {
            assert(r == *self);
        }
        r
    }
}

/// The first entry of `s` whose symbol reads `sym`, if any.
pub open spec fn first_match(s: Seq<SymbolInfo>, sym: Seq<char>) -> Option<SymbolInfo>
    decreases s.len(),
{
    if s.len() == 0 {
        None
    } else if s[0].symbol@ == sym {
        Some(s[0])
    } else {
        first_match(s.drop_first(), sym)
    }
}

/// The snapshot after a refresh: a successful fetch replaces the snapshot
/// whole; a failed fetch leaves the previous snapshot intact.
pub open spec fn spec_refresh(
    snapshot: Seq<SymbolInfo>,
    fetched: Result<Vec<SymbolInfo>, OpenLimitError>,
) -> Seq<SymbolInfo> {
    match fetched {
        Ok(list) => list@,
        Err(_) => snapshot,
    }
}

/// In-memory snapshot of the exchange's published per-symbol trading
/// constraints. Mutated only by an explicit `refresh`; read-only otherwise.
pub struct ExchangeInfo {
    pub symbols: Vec<SymbolInfo>,
}

impl ExchangeInfo {
    /// An empty cache, holding no symbol yet.
    pub fn new() -> (r: ExchangeInfo)
        ensures
            r.symbols@ == Seq::<SymbolInfo>::empty(),
    {
        ExchangeInfo { symbols: Vec::new() }
    }

    /// Replace the snapshot with a freshly fetched symbol list, atomically:
    /// a fetch failure changes nothing and is handed back; a success replaces
    /// the whole snapshot.
    pub fn refresh(&mut self, fetched: Result<Vec<SymbolInfo>, OpenLimitError>) -> (r: Result<
        (),
        OpenLimitError,
    >)
        ensures
            final(self).symbols@ == spec_refresh(old(self).symbols@, fetched),
            match fetched {
                Ok(_) => r is Ok,
                Err(e) => r == Err::<(), OpenLimitError>(e),
            },
    {
        match fetched {
            Ok(list) => {
                self.symbols = list;
                Ok(())
            },
            Err(e) => Err(e),
        }
    }

    /// Look one symbol up; `None` for a symbol the backend did not list,
    /// which is expected and not an error.
    pub fn get(&self, symbol: &str) -> (r: Option<SymbolInfo>)
        ensures
            r == first_match(self.symbols@, symbol@),
    {
        let n = self.symbols.len();
        let mut i: usize = 0;
        proof {
            assert(self.symbols@.skip(0) =~= self.symbols@);
        }
        while i < n
            invariant
                n == self.symbols@.len(),
                0 <= i <= n,
                first_match(self.symbols@, symbol@) == first_match(
                    self.symbols@.skip(i as int),
                    symbol@,
                ),
            decreases n - i,
        {
            proof {
                assert(self.symbols@.skip(i as int)[0] == self.symbols@[i as int]);
            }
            if str_eq(self.symbols[i].symbol.as_str(), symbol) {
                let r = self.symbols[i].clone();
                return Some(r);
            }
            proof {
                assert(self.symbols@.skip(i as int).drop_first() =~= self.symbols@.skip(
                    i as int + 1,
                ));
            }
            i += 1;
        }
        proof {
            assert(self.symbols@.skip(n as int) =~= Seq::<SymbolInfo>::empty());
        }
        None
    }
}

/// Refreshing twice with the same fetched symbol list leaves the snapshot
/// exactly as one refresh does: `refresh` is idempotent for an unchanged
/// backend symbol list.
pub proof fn lemma_refresh_idempotent(
    snapshot: Seq<SymbolInfo>,
    fetched: Result<Vec<SymbolInfo>, OpenLimitError>,
)
    ensures
        spec_refresh(spec_refresh(snapshot, fetched), fetched) == spec_refresh(snapshot, fetched),
{
}

} // verus!

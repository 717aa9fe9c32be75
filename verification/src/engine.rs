//! The place where the one browser engine of the process is kept: empty
//! until a caller constructs the engine, then holding it for good.

use vstd::prelude::*;
use crate::error::CrawlError;

verus! {

/// What a caller that wants the engine has to do.
#[derive(Debug, Clone, Copy, PartialEq, Eq, Structural)]
pub enum Acquire {
    /// The engine is there: use it.
    Reuse,
    /// There is no engine yet: construct one and hand it in.
    Construct,
}

/// The slot for the shared engine. Callers look into it and, where it is
/// empty, construct the engine and hand it in, all under one lock, so that
/// no two constructions run at once.
pub struct EngineSlot<T> {
    engine: Option<T>,
}

impl<T> EngineSlot<T> {
    /// The engine that the slot holds, if any.
    pub closed spec fn held(&self) -> Option<T> {
        self.engine
    }

    /// A slot that holds `engine`, or nothing.
    pub fn new(engine: Option<T>) -> (slot: Self)
        ensures
            slot.held() == engine,
    {
        EngineSlot { engine }
    }

    /// What a caller has to do: reuse the engine where there is one, else
    /// construct it.
    pub fn plan(&self) -> (step: Acquire)
        ensures
            step == if self.held() is Some {
                Acquire::Reuse
            } else {
                Acquire::Construct
            },
    {
        match self.engine {
            Some(_) => Acquire::Reuse,
            None => Acquire::Construct,
        }
    }

    /// The engine, if the slot holds one.
    pub fn engine(&self) -> (engine: Option<&T>)
        ensures
            match engine {
                Some(e) => self.held() == Some(*e),
                None => self.held() is None,
            },
    {
        self.engine.as_ref()
    }

    /// Takes in the outcome of a construction: the engine, or nothing where
    /// the construction failed. A slot that holds an engine keeps it. An
    /// empty slot takes the engine; where there is none it stays empty and
    /// the failure is reported, so that a later caller constructs again.
    pub fn settle(&mut self, constructed: Option<T>) -> (outcome: Result<(), CrawlError>)
        ensures
            final(self).held() == if old(self).held() is Some {
                old(self).held()
            } else {
                constructed
            },
            outcome == if final(self).held() is Some {
                Ok::<(), CrawlError>(())
            } else {
                Err::<(), CrawlError>(CrawlError::EngineUnavailable)
            },
    {
        if self.engine.is_none() {
            self.engine = constructed;
        }
        if self.engine.is_some() {
            Ok(())
        } else {
            Err(CrawlError::EngineUnavailable)
        }
    }
}

} // verus!

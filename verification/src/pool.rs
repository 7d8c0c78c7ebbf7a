//! The bounded connection pool and its manager.
//!
//! The pool is the bookkeeping half of the shared resource: one caller at a
//! time holds it exclusively while it asks for a connection or gives one
//! back, so the "check the limit, then create" decision is atomic across
//! concurrent callers. The dial and the RPC themselves happen outside the
//! exclusive section, on the connection value the pool handed out.

use vstd::prelude::*;

use crate::error::Error;

verus! {

/// Default remote evaluation endpoint when configuration leaves it unset.
pub const DEFAULT_AS_ADDR: &'static str = "http://127.0.0.1:50004";

/// Default connection pool size when configuration leaves it unset.
pub const DEFAULT_POOL_SIZE: u64 = 100;

/// Construction-time configuration of the pooled client: the remote
/// evaluation endpoint and the bound on open connections. An unset field
/// falls back to its default.
#[derive(Clone, Debug)]
pub struct GrpcConfig {
    pub as_addr: Option<String>,
    pub pool_size: Option<u64>,
}

/// The endpoint a configuration selects.
pub open spec fn effective_addr(c: GrpcConfig) -> Seq<char> {
    match c.as_addr {
        Some(a) => a@,
        None => DEFAULT_AS_ADDR@,
    }
}

/// The pool bound a configuration selects.
pub open spec fn effective_pool_size(c: GrpcConfig) -> u64 {
    match c.pool_size {
        Some(n) => n,
        None => DEFAULT_POOL_SIZE,
    }
}

impl Default for GrpcConfig {
    /// Both fields set to their defaults.
    fn default() -> (c: GrpcConfig)
        ensures
            c.as_addr matches Some(a) && a@ == DEFAULT_AS_ADDR@,
            c.pool_size == Some(DEFAULT_POOL_SIZE),
    {
        GrpcConfig {
            as_addr: Some(String::from_str(DEFAULT_AS_ADDR)),
            pool_size: Some(DEFAULT_POOL_SIZE),
        }
    }
}

/// Produces and validates one connection to the remote evaluation
/// endpoint. Establishing the transport itself is the embedder's work; the
/// manager owns the endpoint address and the validation policy.
pub struct GrpcManager {
    pub as_addr: String,
}

impl GrpcManager {
    /// A manager for the given endpoint.
    pub fn new(as_addr: String) -> (r: GrpcManager)
        ensures
            r.as_addr == as_addr,
    {
        GrpcManager { as_addr }
    }

    /// The address a new connection must dial.
    pub fn endpoint(&self) -> (r: &str)
        ensures
            r@ == self.as_addr@,
    {
        self.as_addr.as_str()
    }

    /// Validate a connection before it is handed to a borrower. The
    /// baseline policy accepts any successfully obtained connection as
    /// still usable: staleness is detected lazily by the RPC that uses it,
    /// not by an eager probe.
    pub fn check<C>(&self, conn: C) -> (r: Result<C, Error>)
        ensures
            r matches Ok(c) && c == conn,
    {
        Ok(conn)
    }
}

/// What the pool answers a caller that asked for a connection: an idle
/// connection to reuse, leave to dial a new one (the slot is already
/// reserved), or an instruction to wait until a borrower gives one back.
pub enum AcquireStep<C> {
    Reuse(C),
    Dial,
    Wait,
}

/// A bounded pool of connections to the remote evaluation service.
///
/// Each slot moves absent → idle → checked out → idle …, or out of the pool
/// when its connection is discarded after a failure. The bookkeeping
/// invariant bounds open connections — idle plus checked out — by the
/// configured capacity.
pub struct GrpcClientPool<C> {
    manager: GrpcManager,
    capacity: u64,
    idle: Vec<C>,
    checked_out: u64,
}

impl<C> GrpcClientPool<C> {
    /// Bookkeeping invariant: open connections never exceed the capacity.
    pub closed spec fn inv(&self) -> bool {
        self.checked_out as int + self.idle@.len() <= self.capacity as int
    }

    /// The configured bound on open connections.
    pub closed spec fn spec_capacity(&self) -> u64 {
        self.capacity
    }

    /// How many connections borrowers hold right now.
    pub closed spec fn spec_checked_out(&self) -> u64 {
        self.checked_out
    }

    /// The idle connections, oldest first.
    pub closed spec fn spec_idle(&self) -> Seq<C> {
        self.idle@
    }

    /// The configured remote endpoint.
    pub closed spec fn spec_endpoint(&self) -> Seq<char> {
        self.manager.as_addr@
    }

    /// A fresh pool for the configured endpoint and capacity (or their
    /// defaults), with no connection open yet.
    pub fn new(config: GrpcConfig) -> (r: Result<GrpcClientPool<C>, Error>)
        ensures
            r matches Ok(p) && {
                &&& p.inv()
                &&& p.spec_capacity() == effective_pool_size(config)
                &&& p.spec_checked_out() == 0
                &&& p.spec_idle() == Seq::<C>::empty()
                &&& p.spec_endpoint() == effective_addr(config)
            },
    {
        let as_addr = match config.as_addr {
            Some(a) => a,
            None => String::from_str(DEFAULT_AS_ADDR),
        };
        let pool_size = match config.pool_size {
            Some(n) => n,
            None => DEFAULT_POOL_SIZE,
        };
        let r = GrpcClientPool {
            manager: GrpcManager::new(as_addr),
            capacity: pool_size,
            idle: Vec::new(),
            checked_out: 0,
        };
        proof {
            assert(r.spec_idle() =~= Seq::<C>::empty());
        }
        Ok(r)
    }

    /// The configured bound on open connections.
    pub fn capacity(&self) -> (r: u64)
        ensures
            r == self.spec_capacity(),
    {
        self.capacity
    }

    /// How many connections borrowers hold right now.
    pub fn checked_out(&self) -> (r: u64)
        ensures
            r == self.spec_checked_out(),
    {
        self.checked_out
    }

    /// The address a newly authorized dial must use.
    pub fn endpoint(&self) -> (r: &str)
        ensures
            r@ == self.spec_endpoint(),
    {
        self.manager.endpoint()
    }

    /// Ask for a connection: an idle one is handed out; otherwise, while
    /// under the capacity, the caller is told to dial and the slot is
    /// reserved at once, so that two concurrent acquirers can never both
    /// observe room and overshoot the bound; at the capacity the caller
    /// must wait for a release.
    pub fn acquire(&mut self) -> (step: AcquireStep<C>)
        requires
            old(self).inv(),
        ensures
            final(self).inv(),
            final(self).spec_checked_out() <= final(self).spec_capacity(),
            final(self).spec_capacity() == old(self).spec_capacity(),
            final(self).spec_endpoint() == old(self).spec_endpoint(),
            step matches AcquireStep::Reuse(c) ==> {
                &&& old(self).spec_idle().len() > 0
                &&& c == old(self).spec_idle().last()
                &&& final(self).spec_idle() == old(self).spec_idle().drop_last()
                &&& final(self).spec_checked_out() == old(self).spec_checked_out() + 1
            },
            step is Dial ==> {
                &&& old(self).spec_idle().len() == 0
                &&& old(self).spec_checked_out() < old(self).spec_capacity()
                &&& final(self).spec_idle() == old(self).spec_idle()
                &&& final(self).spec_checked_out() == old(self).spec_checked_out() + 1
            },
            step is Wait ==> {
                &&& old(self).spec_idle().len() == 0
                &&& old(self).spec_checked_out() >= old(self).spec_capacity()
                &&& final(self).spec_idle() == old(self).spec_idle()
                &&& final(self).spec_checked_out() == old(self).spec_checked_out()
            },
    {
        match self.idle.pop() {
            Some(c) => {
                self.checked_out = self.checked_out + 1;
                AcquireStep::Reuse(c)
            },
            None => {
                if self.checked_out < self.capacity {
                    self.checked_out = self.checked_out + 1;
                    AcquireStep::Dial
                } else {
                    AcquireStep::Wait
                }
            },
        }
    }

    /// A borrower finished with its connection (whether its call succeeded
    /// or failed): the connection goes back to the idle set and the slot is
    /// freed. The baseline keeps even a connection whose call failed; the
    /// next `check`/use cycle detects staleness.
    pub fn release(&mut self, conn: C)
        requires
            old(self).inv(),
            old(self).spec_checked_out() > 0,
        ensures
            final(self).inv(),
            final(self).spec_checked_out() == old(self).spec_checked_out() - 1,
            final(self).spec_idle() == old(self).spec_idle().push(conn),
            final(self).spec_capacity() == old(self).spec_capacity(),
            final(self).spec_endpoint() == old(self).spec_endpoint(),
    {
        self.checked_out = self.checked_out - 1;
        self.idle.push(conn);
    }

    /// A reserved slot comes back without a connection: the authorized dial
    /// failed, or a borrower's connection is evicted instead of returned.
    pub fn discard(&mut self)
        requires
            old(self).inv(),
            old(self).spec_checked_out() > 0,
        ensures
            final(self).inv(),
            final(self).spec_checked_out() == old(self).spec_checked_out() - 1,
            final(self).spec_idle() == old(self).spec_idle(),
            final(self).spec_capacity() == old(self).spec_capacity(),
            final(self).spec_endpoint() == old(self).spec_endpoint(),
    {
        self.checked_out = self.checked_out - 1;
    }
}

/// Law: however many callers contend, the number of simultaneously
/// checked-out connections never exceeds the configured capacity — every
/// pool operation preserves the bookkeeping invariant, and the invariant
/// bounds the count.
pub proof fn lemma_pool_capacity_bound<C>(p: &GrpcClientPool<C>)
    requires
        p.inv(),
    ensures
        p.spec_checked_out() <= p.spec_capacity(),
{
}

} // verus!

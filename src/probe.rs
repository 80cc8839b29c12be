use vstd::prelude::*;

verus! {

/// The number of probes in the battery.
pub const PROBE_COUNT: usize = 7;

/// One named class of remote call in the battery, in registry order.
#[derive(Clone, Copy, Debug, PartialEq, Eq, Structural)]
pub enum ProbeKind {
    LatestBlockhash,
    Slot,
    Balance,
    AccountInfo,
    Block,
    TokenAccountsByOwner,
    Health,
}

/// Position of a probe in the registry.
pub open spec fn probe_index(p: ProbeKind) -> nat {
    match p {
        ProbeKind::LatestBlockhash => 0,
        ProbeKind::Slot => 1,
        ProbeKind::Balance => 2,
        ProbeKind::AccountInfo => 3,
        ProbeKind::Block => 4,
        ProbeKind::TokenAccountsByOwner => 5,
        ProbeKind::Health => 6,
    }
}

/// The probe at a registry position (positions past the end give the last probe).
pub open spec fn probe_at(i: int) -> ProbeKind {
    if i == 0 {
        ProbeKind::LatestBlockhash
    } else if i == 1 {
        ProbeKind::Slot
    } else if i == 2 {
        ProbeKind::Balance
    } else if i == 3 {
        ProbeKind::AccountInfo
    } else if i == 4 {
        ProbeKind::Block
    } else if i == 5 {
        ProbeKind::TokenAccountsByOwner
    } else {
        ProbeKind::Health
    }
}

/// The RPC method name under which a probe is reported.
pub open spec fn probe_name(p: ProbeKind) -> Seq<char> {
    match p {
        ProbeKind::LatestBlockhash => "getLatestBlockhash"@,
        ProbeKind::Slot => "getSlot"@,
        ProbeKind::Balance => "getBalance"@,
        ProbeKind::AccountInfo => "getAccountInfo"@,
        ProbeKind::Block => "getBlock"@,
        ProbeKind::TokenAccountsByOwner => "getTokenAccountsByOwner"@,
        ProbeKind::Health => "getHealth"@,
    }
}

/// The registry: every probe, each once, in the order a sequential session runs them.
pub open spec fn registry_spec() -> Seq<ProbeKind> {
    seq![
        ProbeKind::LatestBlockhash,
        ProbeKind::Slot,
        ProbeKind::Balance,
        ProbeKind::AccountInfo,
        ProbeKind::Block,
        ProbeKind::TokenAccountsByOwner,
        ProbeKind::Health,
    ]
}

impl ProbeKind {
    /// Registry position of this probe.
    pub fn index(&self) -> (r: usize)
        ensures
            r == probe_index(*self),
    {
        match self {
            ProbeKind::LatestBlockhash => 0,
            ProbeKind::Slot => 1,
            ProbeKind::Balance => 2,
            ProbeKind::AccountInfo => 3,
            ProbeKind::Block => 4,
            ProbeKind::TokenAccountsByOwner => 5,
            ProbeKind::Health => 6,
        }
    }

    /// The probe at registry position `i`.
    pub fn from_index(i: usize) -> (r: ProbeKind)
        requires
            i < PROBE_COUNT,
        ensures
            r == probe_at(i as int),
            probe_index(r) == i,
    {
        if i == 0 {
            ProbeKind::LatestBlockhash
        } else if i == 1 {
            ProbeKind::Slot
        } else if i == 2 {
            ProbeKind::Balance
        } else if i == 3 {
            ProbeKind::AccountInfo
        } else if i == 4 {
            ProbeKind::Block
        } else if i == 5 {
            ProbeKind::TokenAccountsByOwner
        } else {
            ProbeKind::Health
        }
    }

    /// The RPC method name of this probe.
    pub fn name(&self) -> (r: &'static str)
        ensures
            r@ == probe_name(*self),
    {
        match self {
            ProbeKind::LatestBlockhash => "getLatestBlockhash",
            ProbeKind::Slot => "getSlot",
            ProbeKind::Balance => "getBalance",
            ProbeKind::AccountInfo => "getAccountInfo",
            ProbeKind::Block => "getBlock",
            ProbeKind::TokenAccountsByOwner => "getTokenAccountsByOwner",
            ProbeKind::Health => "getHealth",
        }
    }
}

/// The probe registry in order.
pub fn registry() -> (r: Vec<ProbeKind>)
    ensures
        r@ == registry_spec(),
{
    let r = vec![
        ProbeKind::LatestBlockhash,
        ProbeKind::Slot,
        ProbeKind::Balance,
        ProbeKind::AccountInfo,
        ProbeKind::Block,
        ProbeKind::TokenAccountsByOwner,
        ProbeKind::Health,
    ];
    assert(r@ =~= registry_spec());
    r
}

/// The number of invocations a session plans: `iterations` for each probe
/// of the registry, or `None` when that count does not fit in a `u64`.
pub fn planned_invocations(iterations: usize) -> (r: Option<u64>)
    ensures
        r matches Some(n) ==> n == PROBE_COUNT * iterations,
        r is None <==> PROBE_COUNT * iterations > u64::MAX,
{
    let it = iterations as u64;
    if it > u64::MAX / 7 {
        None
    } else {
        Some(7 * it)
    }
}

} // verus!

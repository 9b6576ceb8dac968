//! One engine per selected device: which options each gets.

use vstd::prelude::*;
use crate::common::Address;
use crate::error::KristforgeError;
use crate::miner::MinerOpts;
use crate::selector::DeviceSelector;

verus! {

/// The prefix of the engine at position `i`, counting on from `first` and
/// starting again at 0 after 255.
pub open spec fn prefix_at(first: u8, i: int) -> u8 {
    ((first + i) % 256) as u8
}

/// The options of the engines for `n` devices: those given, each with its
/// own prefix.
pub open spec fn planned(opts: MinerOpts, n: nat) -> Seq<MinerOpts> {
    Seq::new(n, |i: int| MinerOpts { prefix: prefix_at(opts.prefix, i), ..opts })
}

/// A byte from `rand::random`, drawn from the thread's generator. Nothing is
/// claimed of the value.
#[verifier::external_body]
fn random_prefix() -> (p: u8) {
    rand::random::<u8>()
}

/// The selectors to resolve: those given, or the selector for all devices
/// where none is given.
pub fn selectors_or_all(selectors: Vec<DeviceSelector>) -> (r: Vec<DeviceSelector>)
    ensures
        r@ == if selectors@.len() == 0 {
            seq![DeviceSelector::All]
        } else {
            selectors@
        },
{
    if selectors.len() == 0 {
        let mut all: Vec<DeviceSelector> = Vec::new();
        all.push(DeviceSelector::All);
        assert(all@ =~= seq![DeviceSelector::All]);
        all
    } else {
        selectors
    }
}

/// Plans one engine for each of `devices`, in their order: the engine at
/// position `i` gets `opts` with the prefix `i` steps after that of `opts`.
/// With no device there is nothing to plan, and that is an error.
pub fn plan_engines(devices: &Vec<u64>, opts: &MinerOpts) -> (r: Result<
    Vec<MinerOpts>,
    KristforgeError,
>)
    ensures
        devices@.len() == 0 ==> r == Err::<Vec<MinerOpts>, KristforgeError>(
            KristforgeError::NoDevicesSelected,
        ),
        devices@.len() > 0 ==> r is Ok && r->Ok_0@ == planned(*opts, devices@.len()),
{
    if devices.len() == 0 {
        return Err(KristforgeError::NoDevicesSelected);
    }
    let mut out: Vec<MinerOpts> = Vec::new();
    let mut prefix: u8 = opts.prefix;
    let mut i: usize = 0;
    while i < devices.len()
        invariant
            i <= devices@.len(),
            out@.len() == i,
            prefix == prefix_at(opts.prefix, i as int),
            forall|j: int| 0 <= j < i ==> out@[j] == planned(*opts, devices@.len())[j],
        decreases devices@.len() - i,
    {
        out.push(
            MinerOpts {
                prefix,
                address: opts.address,
                rate_milli: opts.rate_milli,
                vector_width: opts.vector_width,
            },
        );
        prefix = prefix.wrapping_add(1);
        i += 1;
    }
    assert(out@ =~= planned(*opts, devices@.len()));
    Ok(out)
}

/// Plans one engine for each of `devices`, the first with a prefix drawn at
/// random. Whatever is drawn, the plan is that of `plan_engines` for it.
pub fn plan(devices: &Vec<u64>, address: Address, rate_milli: u64, vector_width: Option<u32>) -> (r:
    Result<Vec<MinerOpts>, KristforgeError>)
    ensures
        devices@.len() == 0 ==> r == Err::<Vec<MinerOpts>, KristforgeError>(
            KristforgeError::NoDevicesSelected,
        ),
        devices@.len() > 0 ==> r is Ok && exists|first: u8|
            r->Ok_0@ == planned(
                MinerOpts { prefix: first, address, rate_milli, vector_width },
                devices@.len(),
            ),
{
    let first: u8 = random_prefix();
    let opts = MinerOpts { prefix: first, address, rate_milli, vector_width };
    plan_engines(devices, &opts)
}

/// Up to 256 engines that are planned together all get different prefixes.
pub proof fn lemma_prefixes_differ(first: u8, i: int, j: int)
    requires
        0 <= i < j < 256,
    ensures
        prefix_at(first, i) != prefix_at(first, j),
{
}

/// In a plan each engine has the options that were given, but for its
/// prefix, and engines at different positions have different prefixes as
/// long as there are no more than 256.
pub proof fn lemma_plan_prefixes(opts: MinerOpts, n: nat, i: int, j: int)
    requires
        n <= 256,
        0 <= i < j < n,
    ensures
        planned(opts, n)[i].prefix != planned(opts, n)[j].prefix,
        planned(opts, n)[i].address == opts.address,
        planned(opts, n)[i].rate_milli == opts.rate_milli,
        planned(opts, n)[i].vector_width == opts.vector_width,
        planned(opts, n)[0].prefix == opts.prefix,
{
    lemma_prefixes_differ(opts.prefix, i, j);
}

} // verus!

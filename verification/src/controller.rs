use vstd::prelude::*;
use vstd::multiset::Multiset;

use crate::device::Device;
use crate::error::BtError;

verus! {

broadcast use vstd::seq_lib::group_seq_lib_default, vstd::seq_lib::group_to_multiset_ensures;

/// Strictly ascending by peripheral address.
pub open spec fn sorted_by_addr(s: Seq<Device>) -> bool {
    forall|i: int, j: int| 0 <= i < j < s.len() ==> s[i].addr < s[j].addr
}

/// No two snapshots share an address.
pub open spec fn distinct_addrs(s: Seq<Device>) -> bool {
    forall|i: int, j: int| 0 <= i < j < s.len() ==> s[i].addr != s[j].addr
}

/// The paired snapshots of an enumeration, in enumeration order.
pub open spec fn paired_filter(s: Seq<Device>) -> Seq<Device> {
    s.filter(|d: Device| d.is_paired)
}

/// The unpaired snapshots of an enumeration, in enumeration order.
pub open spec fn unpaired_filter(s: Seq<Device>) -> Seq<Device> {
    s.filter(|d: Device| !d.is_paired)
}

/// The set of addresses occurring in a list of snapshots.
pub open spec fn addr_set(s: Seq<Device>) -> Set<u64> {
    Set::new(|a: u64| exists|i: int| 0 <= i < s.len() && s[i].addr == a)
}

/// Insert a snapshot into a strictly sorted list, keeping it strictly sorted.
fn insert_by_addr(v: &mut Vec<Device>, d: Device)
    requires
        sorted_by_addr(old(v)@),
        forall|k: int| 0 <= k < old(v)@.len() ==> old(v)@[k].addr != d.addr,
    ensures
        sorted_by_addr(final(v)@),
        final(v)@.to_multiset() == old(v)@.to_multiset().insert(d),
        final(v)@.len() == old(v)@.len() + 1,
        forall|x: Device| final(v)@.contains(x) <==> old(v)@.contains(x) || x == d,
{
    let mut i: usize = 0;
    while i < v.len() && v[i].addr < d.addr
        invariant
            v@ == old(v)@,
            sorted_by_addr(v@),
            forall|k: int| 0 <= k < old(v)@.len() ==> old(v)@[k].addr != d.addr,
            i <= v@.len(),
            forall|k: int| 0 <= k < i ==> v@[k].addr < d.addr,
        decreases v@.len() - i,
    {
        i += 1;
    }
    proof {
        assert(forall|k: int| i <= k < v@.len() ==> v@[k].addr > d.addr);
    }
    let ghost before = v@;
    v.insert(i, d);
    proof {
        assert(v@ == before.insert(i as int, d));
        assert(v@ =~= before.subrange(0, i as int).push(d) + before.subrange(
            i as int,
            before.len() as int,
        ));
        assert forall|a: int, b: int| 0 <= a < b < v@.len() implies v@[a].addr < v@[b].addr by {
            assert(forall|k: int| 0 <= k < i ==> v@[k] == before[k]);
            assert(v@[i as int] == d);
            assert(forall|k: int| i < k < v@.len() ==> v@[k] == before[k - 1]);
        }
        assert forall|x: Device| v@.contains(x) <==> before.contains(x) || x == d by {
            assert(v@.to_multiset().count(x) > 0 <==> v@.contains(x));
            assert(before.to_multiset().count(x) > 0 <==> before.contains(x));
        }
    }
}

/// Split one enumeration of snapshots into the paired and the new (unpaired)
/// list, each strictly sorted by address. Together the two lists carry
/// exactly the enumerated snapshots: the paired list holds precisely the
/// paired ones and the new list precisely the rest.
pub fn partition_devices(devices: Vec<Device>) -> (r: (Vec<Device>, Vec<Device>))
    requires
        distinct_addrs(devices@),
    ensures
        r.0@.to_multiset() == paired_filter(devices@).to_multiset(),
        r.1@.to_multiset() == unpaired_filter(devices@).to_multiset(),
        sorted_by_addr(r.0@),
        sorted_by_addr(r.1@),
        addr_set(r.0@).union(addr_set(r.1@)) == addr_set(devices@),
        forall|a: u64| !(addr_set(r.0@).contains(a) && addr_set(r.1@).contains(a)),
        r.0@.len() + r.1@.len() == devices@.len(),
{
    let ghost all = devices@;
    let mut rest = devices;
    let mut paired: Vec<Device> = Vec::new();
    let mut fresh: Vec<Device> = Vec::new();
    let ghost mut k: int = 0;
    proof {
        assert(all.skip(0) =~= all);
        assert(paired_filter(all.take(0)) =~= Seq::<Device>::empty()) by {
            reveal_with_fuel(Seq::<_>::filter, 2);
            assert(all.take(0) =~= Seq::<Device>::empty());
        }
        assert(unpaired_filter(all.take(0)) =~= Seq::<Device>::empty()) by {
            reveal_with_fuel(Seq::<_>::filter, 2);
            assert(all.take(0) =~= Seq::<Device>::empty());
        }
        assert(Seq::<Device>::empty().to_multiset() =~= Multiset::<Device>::empty());
    }
    while rest.len() > 0
        invariant
            distinct_addrs(all),
            0 <= k <= all.len(),
            rest@ == all.skip(k),
            paired@.to_multiset() == paired_filter(all.take(k)).to_multiset(),
            fresh@.to_multiset() == unpaired_filter(all.take(k)).to_multiset(),
            sorted_by_addr(paired@),
            sorted_by_addr(fresh@),
            forall|i: int| 0 <= i < paired@.len() ==> all.take(k).contains(#[trigger] paired@[i]),
            forall|i: int| 0 <= i < fresh@.len() ==> all.take(k).contains(#[trigger] fresh@[i]),
        decreases rest@.len(),
    {
        let d = rest.remove(0);
        proof {
            assert(d == all[k]);
            assert(all.skip(k).remove(0) =~= all.skip(k + 1));
        }
        proof {
            assert forall|idx: int| 0 <= idx < paired@.len() implies #[trigger] paired@[idx].addr
                != d.addr by {
                let j = choose|j: int|
                    0 <= j < all.take(k).len() && all.take(k)[j] == paired@[idx];
                assert(all[j] == paired@[idx]);
            }
            assert forall|idx: int| 0 <= idx < fresh@.len() implies #[trigger] fresh@[idx].addr
                != d.addr by {
                let j = choose|j: int| 0 <= j < all.take(k).len() && all.take(k)[j] == fresh@[idx];
                assert(all[j] == fresh@[idx]);
            }
        }
        let ghost old_paired = paired@;
        let ghost old_fresh = fresh@;
        if d.is_paired {
            insert_by_addr(&mut paired, d);
        } else {
            insert_by_addr(&mut fresh, d);
        }
        proof {
            reveal_with_fuel(Seq::<_>::filter, 2);
            assert(all.take(k + 1) =~= all.take(k) + seq![d]);
            assert(seq![d].drop_last() =~= Seq::<Device>::empty());
            assert(paired_filter(all.take(k + 1)) =~= paired_filter(all.take(k)) + paired_filter(
                seq![d],
            ));
            assert(unpaired_filter(all.take(k + 1)) =~= unpaired_filter(all.take(k))
                + unpaired_filter(seq![d]));
            if d.is_paired {
                assert(paired_filter(seq![d]) =~= seq![d]);
                assert(unpaired_filter(seq![d]) =~= Seq::<Device>::empty());
                assert(paired_filter(all.take(k + 1)) =~= paired_filter(all.take(k)).push(d));
                assert(unpaired_filter(all.take(k + 1)) =~= unpaired_filter(all.take(k)));
                assert(paired@.to_multiset() == paired_filter(all.take(k + 1)).to_multiset());
            } else {
                assert(paired_filter(seq![d]) =~= Seq::<Device>::empty());
                assert(unpaired_filter(seq![d]) =~= seq![d]);
                assert(unpaired_filter(all.take(k + 1)) =~= unpaired_filter(all.take(k)).push(d));
                assert(paired_filter(all.take(k + 1)) =~= paired_filter(all.take(k)));
                assert(fresh@.to_multiset() == unpaired_filter(all.take(k + 1)).to_multiset());
            }
            assert forall|i: int| 0 <= i < paired@.len() implies all.take(k + 1).contains(
                #[trigger] paired@[i],
            ) by {
                assert(paired@.contains(paired@[i]));
                if old_paired.contains(paired@[i]) {
                    let j = choose|j: int|
                        0 <= j < all.take(k).len() && all.take(k)[j] == paired@[i];
                    assert(all.take(k + 1)[j] == paired@[i]);
                } else {
                    assert(paired@[i] == d);
                    assert(all.take(k + 1)[k] == d);
                }
            }
            assert forall|i: int| 0 <= i < fresh@.len() implies all.take(k + 1).contains(
                #[trigger] fresh@[i],
            ) by {
                assert(fresh@.contains(fresh@[i]));
                if old_fresh.contains(fresh@[i]) {
                    let j = choose|j: int| 0 <= j < all.take(k).len() && all.take(k)[j] == fresh@[i];
                    assert(all.take(k + 1)[j] == fresh@[i]);
                } else {
                    assert(fresh@[i] == d);
                    assert(all.take(k + 1)[k] == d);
                }
            }
            k = k + 1;
        }
    }
    proof {
        assert(all.take(k) =~= all);
        lemma_partition_covers_addresses(all, paired@, fresh@);
        assert(addr_set(paired@).union(addr_set(fresh@)) =~= addr_set(all));
    }
    (paired, fresh)
}

/// Two lists with equal multisets hold the same elements.
proof fn lemma_multiset_transfer(a: Seq<Device>, b: Seq<Device>, x: Device)
    requires
        a.to_multiset() == b.to_multiset(),
        a.contains(x),
    ensures
        b.contains(x),
{
    assert(a.to_multiset().count(x) > 0);
    assert(b.to_multiset().count(x) > 0);
}

/// Every snapshot in a filtered enumeration comes from the enumeration.
proof fn lemma_filter_subset(s: Seq<Device>, pred: spec_fn(Device) -> bool)
    ensures
        forall|x: Device| #[trigger] s.filter(pred).contains(x) ==> s.contains(x),
    decreases s.len(),
{
    reveal_with_fuel(Seq::<_>::filter, 2);
    if s.len() > 0 {
        lemma_filter_subset(s.drop_last(), pred);
        assert forall|x: Device| #[trigger] s.filter(pred).contains(x) implies s.contains(x) by {
            let f = s.drop_last().filter(pred);
            if pred(s.last()) {
                assert(s.filter(pred) == f.push(s.last()));
                let j = choose|j: int| 0 <= j < f.push(s.last()).len() && f.push(s.last())[j] == x;
                if j < f.len() {
                    assert(f[j] == x);
                    assert(f.contains(x));
                    assert(s.drop_last().contains(x));
                    let m = choose|m: int| 0 <= m < s.drop_last().len() && s.drop_last()[m] == x;
                    assert(s[m] == x);
                } else {
                    assert(x == s.last());
                    assert(s[s.len() - 1] == x);
                }
            } else {
                assert(s.filter(pred) == f);
                assert(f.contains(x));
                assert(s.drop_last().contains(x));
                let m = choose|m: int| 0 <= m < s.drop_last().len() && s.drop_last()[m] == x;
                assert(s[m] == x);
            }
        }
    }
}

/// The paired and the unpaired snapshots together are as many as the
/// enumeration holds.
pub proof fn lemma_partition_lens(s: Seq<Device>)
    ensures
        paired_filter(s).len() + unpaired_filter(s).len() == s.len(),
    decreases s.len(),
{
    reveal_with_fuel(Seq::<_>::filter, 2);
    if s.len() > 0 {
        lemma_partition_lens(s.drop_last());
    }
}

/// Lists that carry the paired and the unpaired snapshots of an enumeration
/// hold paired snapshots only and unpaired snapshots only, respectively.
pub proof fn lemma_partition_flags(devices: Seq<Device>, paired: Seq<Device>, fresh: Seq<Device>)
    requires
        paired.to_multiset() == paired_filter(devices).to_multiset(),
        fresh.to_multiset() == unpaired_filter(devices).to_multiset(),
    ensures
        forall|i: int| 0 <= i < paired.len() ==> (#[trigger] paired[i]).is_paired,
        forall|i: int| 0 <= i < fresh.len() ==> !(#[trigger] fresh[i]).is_paired,
{
    assert forall|i: int| 0 <= i < paired.len() implies (#[trigger] paired[i]).is_paired by {
        assert(paired.contains(paired[i]));
        lemma_multiset_transfer(paired, paired_filter(devices), paired[i]);
        let j = choose|j: int|
            0 <= j < paired_filter(devices).len() && paired_filter(devices)[j] == paired[i];
        assert(paired_filter(devices)[j] == paired[i]);
    }
    assert forall|i: int| 0 <= i < fresh.len() implies !(#[trigger] fresh[i]).is_paired by {
        assert(fresh.contains(fresh[i]));
        lemma_multiset_transfer(fresh, unpaired_filter(devices), fresh[i]);
        let j = choose|j: int|
            0 <= j < unpaired_filter(devices).len() && unpaired_filter(devices)[j] == fresh[i];
        assert(unpaired_filter(devices)[j] == fresh[i]);
    }
}

/// The partition law: lists that carry exactly the paired and the unpaired
/// snapshots of one enumeration with pairwise distinct addresses cover
/// exactly the enumerated address set, share no address, and together are
/// exactly as many as were enumerated.
pub proof fn lemma_partition_covers_addresses(
    devices: Seq<Device>,
    paired: Seq<Device>,
    fresh: Seq<Device>,
)
    requires
        distinct_addrs(devices),
        paired.to_multiset() == paired_filter(devices).to_multiset(),
        fresh.to_multiset() == unpaired_filter(devices).to_multiset(),
    ensures
        addr_set(paired).union(addr_set(fresh)) =~= addr_set(devices),
        forall|a: u64| !(addr_set(paired).contains(a) && addr_set(fresh).contains(a)),
        paired.len() + fresh.len() == devices.len(),
{
    lemma_filter_subset(devices, |d: Device| d.is_paired);
    lemma_filter_subset(devices, |d: Device| !d.is_paired);
    lemma_partition_flags(devices, paired, fresh);
    lemma_partition_lens(devices);
    assert(paired.to_multiset().len() == paired.len());
    assert(paired_filter(devices).to_multiset().len() == paired_filter(devices).len());
    assert(fresh.to_multiset().len() == fresh.len());
    assert(unpaired_filter(devices).to_multiset().len() == unpaired_filter(devices).len());
    assert forall|a: u64| addr_set(devices).contains(a) implies addr_set(paired).union(
        addr_set(fresh),
    ).contains(a) by {
        let i = choose|i: int| 0 <= i < devices.len() && devices[i].addr == a;
        let d = devices[i];
        if d.is_paired {
            assert(paired_filter(devices).contains(d));
            lemma_multiset_transfer(paired_filter(devices), paired, d);
            let j = choose|j: int| 0 <= j < paired.len() && paired[j] == d;
            assert(addr_set(paired).contains(a));
        } else {
            assert(unpaired_filter(devices).contains(d));
            lemma_multiset_transfer(unpaired_filter(devices), fresh, d);
            let j = choose|j: int| 0 <= j < fresh.len() && fresh[j] == d;
            assert(addr_set(fresh).contains(a));
        }
    }
    assert forall|a: u64| addr_set(paired).contains(a) implies addr_set(devices).contains(a) by {
        let i = choose|i: int| 0 <= i < paired.len() && paired[i].addr == a;
        assert(paired.contains(paired[i]));
        lemma_multiset_transfer(paired, paired_filter(devices), paired[i]);
        assert(devices.contains(paired[i]));
        let j = choose|j: int| 0 <= j < devices.len() && devices[j] == paired[i];
        assert(addr_set(devices).contains(a));
    }
    assert forall|a: u64| addr_set(fresh).contains(a) implies addr_set(devices).contains(a) by {
        let i = choose|i: int| 0 <= i < fresh.len() && fresh[i].addr == a;
        assert(fresh.contains(fresh[i]));
        lemma_multiset_transfer(fresh, unpaired_filter(devices), fresh[i]);
        assert(devices.contains(fresh[i]));
        let j = choose|j: int| 0 <= j < devices.len() && devices[j] == fresh[i];
        assert(addr_set(devices).contains(a));
    }
    assert forall|a: u64| !(addr_set(paired).contains(a) && addr_set(fresh).contains(a)) by {
        if addr_set(paired).contains(a) && addr_set(fresh).contains(a) {
            let i = choose|i: int| 0 <= i < paired.len() && paired[i].addr == a;
            let j = choose|j: int| 0 <= j < fresh.len() && fresh[j].addr == a;
            let x = paired[i];
            let y = fresh[j];
            assert(paired.contains(x));
            lemma_multiset_transfer(paired, paired_filter(devices), x);
            assert(devices.contains(x));
            assert(fresh.contains(y));
            lemma_multiset_transfer(fresh, unpaired_filter(devices), y);
            assert(devices.contains(y));
            let pf = paired_filter(devices);
            let uf = unpaired_filter(devices);
            let ip = choose|m: int| 0 <= m < pf.len() && pf[m] == x;
            let jf = choose|m: int| 0 <= m < uf.len() && uf[m] == y;
            assert(x.is_paired);
            assert(!y.is_paired);
            let ii = choose|m: int| 0 <= m < devices.len() && devices[m] == x;
            let jj = choose|m: int| 0 <= m < devices.len() && devices[m] == y;
            assert(devices[ii].addr == devices[jj].addr);
            assert(ii != jj);
            assert(false);
        }
    }
}

/// The adapter-session state the driver renders from: adapter identity, the
/// three adapter properties, the shared "is-scanning" flag's last observed
/// value, and the two partitioned, address-sorted device lists. Observed
/// state is strictly pulled: a property write (power, discoverable,
/// pairable) is a single platform call issued by the session driver and
/// mutates nothing here; the change becomes visible only through the next
/// `refresh`, which replaces the lists wholesale, never piecemeal.
pub struct Controller {
    pub name: String,
    pub alias: String,
    pub is_powered: bool,
    pub is_pairable: bool,
    pub is_discoverable: bool,
    pub is_scanning: bool,
    pub paired_devices: Vec<Device>,
    pub new_devices: Vec<Device>,
}

impl Controller {
    /// The lists partition by pairing state and are strictly sorted.
    pub open spec fn wf(&self) -> bool {
        &&& sorted_by_addr(self.paired_devices@)
        &&& sorted_by_addr(self.new_devices@)
        &&& forall|i: int|
            0 <= i < self.paired_devices@.len() ==> (#[trigger] self.paired_devices@[i]).is_paired
        &&& forall|i: int|
            0 <= i < self.new_devices@.len() ==> !(#[trigger] self.new_devices@[i]).is_paired
    }

    /// Resolve the adapter to drive: the first available one; with none,
    /// controller construction fails.
    pub fn select_adapter(adapter_names: Vec<String>) -> (r: Result<String, BtError>)
        ensures
            adapter_names@.len() == 0 <==> r is Err,
            r matches Err(e) ==> e == BtError::NoAdapterFound,
            r matches Ok(name) ==> adapter_names@.len() > 0 && name == adapter_names@[0],
    {
        let mut names = adapter_names;
        if names.len() == 0 {
            Err(BtError::NoAdapterFound)
        } else {
            Ok(names.remove(0))
        }
    }

    /// Build the controller state from one pull of adapter properties and
    /// one device enumeration.
    pub fn new(
        name: String,
        alias: String,
        is_powered: bool,
        is_pairable: bool,
        is_discoverable: bool,
        is_scanning: bool,
        devices: Vec<Device>,
    ) -> (c: Controller)
        requires
            distinct_addrs(devices@),
        ensures
            c.wf(),
            c.name == name,
            c.alias == alias,
            c.is_powered == is_powered,
            c.is_pairable == is_pairable,
            c.is_discoverable == is_discoverable,
            c.is_scanning == is_scanning,
            c.paired_devices@.to_multiset() == paired_filter(devices@).to_multiset(),
            c.new_devices@.to_multiset() == unpaired_filter(devices@).to_multiset(),
            addr_set(c.paired_devices@).union(addr_set(c.new_devices@)) == addr_set(devices@),
            c.paired_devices@.len() + c.new_devices@.len() == devices@.len(),
    {
        let ghost devs = devices@;
        let (paired_devices, new_devices) = partition_devices(devices);
        proof {
            lemma_partition_flags(devs, paired_devices@, new_devices@);
        }
        Controller {
            name,
            alias,
            is_powered,
            is_pairable,
            is_discoverable,
            is_scanning,
            paired_devices,
            new_devices,
        }
    }

    /// Re-read the adapter properties and replace both device lists
    /// atomically with the partition of a fresh enumeration; the adapter
    /// identity and the scanning flag are untouched.
    pub fn refresh(
        &mut self,
        is_powered: bool,
        is_pairable: bool,
        is_discoverable: bool,
        devices: Vec<Device>,
    )
        requires
            distinct_addrs(devices@),
        ensures
            final(self).wf(),
            final(self).name == old(self).name,
            final(self).alias == old(self).alias,
            final(self).is_scanning == old(self).is_scanning,
            final(self).is_powered == is_powered,
            final(self).is_pairable == is_pairable,
            final(self).is_discoverable == is_discoverable,
            final(self).paired_devices@.to_multiset() == paired_filter(devices@).to_multiset(),
            final(self).new_devices@.to_multiset() == unpaired_filter(devices@).to_multiset(),
            addr_set(final(self).paired_devices@).union(addr_set(final(self).new_devices@))
                == addr_set(devices@),
            final(self).paired_devices@.len() + final(self).new_devices@.len()
                == devices@.len(),
    {
        let ghost devs = devices@;
        let (paired_devices, new_devices) = partition_devices(devices);
        proof {
            lemma_partition_flags(devs, paired_devices@, new_devices@);
        }
        self.is_powered = is_powered;
        self.is_pairable = is_pairable;
        self.is_discoverable = is_discoverable;
        self.paired_devices = paired_devices;
        self.new_devices = new_devices;
    }
}

} // verus!

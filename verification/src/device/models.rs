//! The Busylight models that the daemon recognises by USB vendor and
//! product ID.

use vstd::prelude::*;

verus! {

#[derive(Debug, Clone, Copy, PartialEq, Eq, Structural)]
pub enum ModelVariant {
    UcOmega,
    Alpha,
    Omega,
    Uc,
    Lync,
    Uc2,
}

/// A supported USB device: its vendor ID, product ID and model.
#[derive(Debug, Clone, Copy, PartialEq, Eq, Structural)]
pub struct KnownDevice {
    pub vid: u16,
    pub pid: u16,
    pub variant: ModelVariant,
}

/// The model with the given USB vendor and product ID, if it is supported.
pub open spec fn spec_model(vid: u16, pid: u16) -> Option<ModelVariant> {
    if vid == 0x04D8 {
        if pid == 0xF848 {
            Some(ModelVariant::UcOmega)
        } else if pid == 0xF8F8 {
            Some(ModelVariant::Uc)
        } else if pid == 0x2013 || pid == 0x2014 {
            Some(ModelVariant::Lync)
        } else {
            None
        }
    } else if vid == 0x27BB {
        if pid == 0x3BCA || pid == 0x3BCB {
            Some(ModelVariant::Alpha)
        } else if pid == 0x3BCD {
            Some(ModelVariant::Omega)
        } else if pid == 0x3BC8 || pid == 0x3BC9 {
            Some(ModelVariant::Uc2)
        } else {
            None
        }
    } else {
        None
    }
}

/// The table of supported devices holds each vendor/product pair once, with
/// the model that `spec_model` gives it, and every supported pair occurs in it.
pub open spec fn is_device_table(t: Seq<KnownDevice>) -> bool {
    &&& forall|i: int| 0 <= i < t.len() ==> spec_model(t[i].vid, t[i].pid) == Some(t[i].variant)
    &&& forall|i: int, j: int|
        0 <= i < j < t.len() ==> !(t[i].vid == t[j].vid && t[i].pid == t[j].pid)
    &&& forall|vid: u16, pid: u16|
        spec_model(vid, pid) is Some ==> exists|i: int|
            0 <= i < t.len() && t[i].vid == vid && t[i].pid == pid
}

/// The table of supported devices, in the order in which it is searched.
pub open spec fn device_table() -> Seq<KnownDevice> {
    seq![
        KnownDevice { vid: 0x04D8, pid: 0xF848, variant: ModelVariant::UcOmega },
        KnownDevice { vid: 0x04D8, pid: 0xF8F8, variant: ModelVariant::Uc },
        KnownDevice { vid: 0x04D8, pid: 0x2013, variant: ModelVariant::Lync },
        KnownDevice { vid: 0x04D8, pid: 0x2014, variant: ModelVariant::Lync },
        KnownDevice { vid: 0x27BB, pid: 0x3BCA, variant: ModelVariant::Alpha },
        KnownDevice { vid: 0x27BB, pid: 0x3BCB, variant: ModelVariant::Alpha },
        KnownDevice { vid: 0x27BB, pid: 0x3BCD, variant: ModelVariant::Omega },
        KnownDevice { vid: 0x27BB, pid: 0x3BC8, variant: ModelVariant::Uc2 },
        KnownDevice { vid: 0x27BB, pid: 0x3BC9, variant: ModelVariant::Uc2 },
    ]
}

/// The device table agrees with `spec_model`, holds no pair twice and
/// misses no supported pair.
pub proof fn lemma_device_table()
    ensures
        is_device_table(device_table()),
{
    let t = device_table();
    assert forall|vid: u16, pid: u16| spec_model(vid, pid) is Some implies exists|i: int|
        0 <= i < t.len() && t[i].vid == vid && t[i].pid == pid by {
        if vid == 0x04D8 {
            if pid == 0xF848 {
                assert(t[0].vid == vid && t[0].pid == pid);
            } else if pid == 0xF8F8 {
                assert(t[1].vid == vid && t[1].pid == pid);
            } else if pid == 0x2013 {
                assert(t[2].vid == vid && t[2].pid == pid);
            } else {
                assert(t[3].vid == vid && t[3].pid == pid);
            }
        } else {
            if pid == 0x3BCA {
                assert(t[4].vid == vid && t[4].pid == pid);
            } else if pid == 0x3BCB {
                assert(t[5].vid == vid && t[5].pid == pid);
            } else if pid == 0x3BCD {
                assert(t[6].vid == vid && t[6].pid == pid);
            } else if pid == 0x3BC8 {
                assert(t[7].vid == vid && t[7].pid == pid);
            } else {
                assert(t[8].vid == vid && t[8].pid == pid);
            }
        }
    }
}

/// The table of supported devices.
pub fn known_devices() -> (t: Vec<KnownDevice>)
    ensures
        t@ == device_table(),
{
    let t = vec![
        KnownDevice { vid: 0x04D8, pid: 0xF848, variant: ModelVariant::UcOmega },
        KnownDevice { vid: 0x04D8, pid: 0xF8F8, variant: ModelVariant::Uc },
        KnownDevice { vid: 0x04D8, pid: 0x2013, variant: ModelVariant::Lync },
        KnownDevice { vid: 0x04D8, pid: 0x2014, variant: ModelVariant::Lync },
        KnownDevice { vid: 0x27BB, pid: 0x3BCA, variant: ModelVariant::Alpha },
        KnownDevice { vid: 0x27BB, pid: 0x3BCB, variant: ModelVariant::Alpha },
        KnownDevice { vid: 0x27BB, pid: 0x3BCD, variant: ModelVariant::Omega },
        KnownDevice { vid: 0x27BB, pid: 0x3BC8, variant: ModelVariant::Uc2 },
        KnownDevice { vid: 0x27BB, pid: 0x3BC9, variant: ModelVariant::Uc2 },
    ];
    assert(t@ =~= device_table());
    t
}

impl ModelVariant {
    /// Looks up the model with the given USB vendor and product ID in the
    /// table of supported devices.
    pub fn from_vid_pid(vid: u16, pid: u16) -> (m: Option<ModelVariant>)
        ensures
            m == spec_model(vid, pid),
    {
        let table = known_devices();
        proof {
            lemma_device_table();
        }
        let mut i: usize = 0;
        while i < table.len()
            invariant
                is_device_table(table@),
                i <= table@.len(),
                forall|j: int| 0 <= j < i ==> !(table@[j].vid == vid && table@[j].pid == pid),
            decreases table@.len() - i,
        {
            let d = table[i];
            if d.vid == vid && d.pid == pid {
                return Some(d.variant);
            }
            i = i + 1;
        }
        None
    }
}

/// The supported devices among the first `n` entries of `ids`, in order,
/// each with its index in `ids` and its model.
pub open spec fn supported_among(ids: Seq<(u16, u16)>, n: nat) -> Seq<(usize, ModelVariant)>
    decreases n,
{
    if n == 0 {
        Seq::empty()
    } else {
        let before = supported_among(ids, (n - 1) as nat);
        match spec_model(ids[n - 1].0, ids[n - 1].1) {
            Some(m) => before.push(((n - 1) as usize, m)),
            None => before,
        }
    }
}

/// The supported devices among the `(vendor, product)` IDs of the
/// connected HID devices, in the order in which they are listed: the order
/// in which to try opening them.
pub fn supported_devices(ids: &Vec<(u16, u16)>) -> (found: Vec<(usize, ModelVariant)>)
    ensures
        found@ == supported_among(ids@, ids@.len()),
        forall|i: int|
            0 <= i < found@.len() ==> {
                let (k, m) = #[trigger] found@[i];
                &&& k < ids@.len()
                &&& spec_model(ids@[k as int].0, ids@[k as int].1) == Some(m)
            },
        forall|i: int, j: int| 0 <= i < j < found@.len() ==> found@[i].0 < found@[j].0,
        forall|k: int|
            0 <= k < ids@.len() ==> (spec_model(#[trigger] ids@[k].0, ids@[k].1) matches Some(m)
                ==> exists|i: int|
                0 <= i < found@.len() && #[trigger] found@[i] == (k as usize, m)),
{
    let mut found: Vec<(usize, ModelVariant)> = Vec::new();
    let mut i: usize = 0;
    while i < ids.len()
        invariant
            i <= ids@.len(),
            found@ == supported_among(ids@, i as nat),
        decreases ids@.len() - i,
    {
        let (vid, pid) = ids[i];
        match ModelVariant::from_vid_pid(vid, pid) {
            Some(m) => found.push((i, m)),
            None => {},
        }
        i = i + 1;
    }
    proof {
        lemma_supported_among(ids@, ids@.len());
    }
    found
}

/// The supported devices found among the first `n` IDs are exactly those
/// IDs that name a supported model, each with its index and model, in the
/// order in which they are listed: no supported device is skipped, and
/// nothing else is reported.
pub proof fn lemma_supported_among(ids: Seq<(u16, u16)>, n: nat)
    requires
        n <= ids.len() <= usize::MAX,
    ensures
        forall|i: int|
            0 <= i < supported_among(ids, n).len() ==> {
                let (k, m) = #[trigger] supported_among(ids, n)[i];
                &&& k < n
                &&& spec_model(ids[k as int].0, ids[k as int].1) == Some(m)
            },
        forall|i: int, j: int|
            0 <= i < j < supported_among(ids, n).len() ==> supported_among(ids, n)[i].0
                < supported_among(ids, n)[j].0,
        forall|k: int|
            0 <= k < n ==> (spec_model(#[trigger] ids[k].0, ids[k].1) matches Some(m)
                ==> exists|i: int|
                0 <= i < supported_among(ids, n).len() && #[trigger] supported_among(ids, n)[i]
                    == (k as usize, m)),
    decreases n,
{
    if n > 0 {
        let before = supported_among(ids, (n - 1) as nat);
        lemma_supported_among(ids, (n - 1) as nat);
        let cur = supported_among(ids, n);
        assert forall|k: int|
            0 <= k < n implies (spec_model(#[trigger] ids[k].0, ids[k].1) matches Some(m)
            ==> exists|i: int| 0 <= i < cur.len() && #[trigger] cur[i] == (k as usize, m)) by {
            if k < n - 1 {
                if let Some(m) = spec_model(ids[k].0, ids[k].1) {
                    let i = choose|i: int|
                        0 <= i < before.len() && #[trigger] before[i] == (k as usize, m);
                    assert(cur[i] == before[i]);
                }
            } else {
                if let Some(m) = spec_model(ids[k].0, ids[k].1) {
                    assert(cur[before.len() as int] == (k as usize, m));
                }
            }
        }
    }
}

/// Only the two Kuando vendor IDs, 0x04D8 and 0x27BB, are ever recognised.
pub proof fn lemma_only_kuando_vendors(vid: u16, pid: u16)
    requires
        vid != 0x04D8,
        vid != 0x27BB,
    ensures
        spec_model(vid, pid) is None,
{
}

} // verus!

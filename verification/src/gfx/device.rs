use vstd::prelude::*;
use crate::gfx::queues::{QueueCaps, QueueFlag, Queues, spec_role};

verus! {

/// Why a physical device or its queue families cannot be used.
#[derive(Clone, Copy, Debug, PartialEq, Eq, Structural)]
pub enum DeviceError {
    NoPresentFamily,
    NoGraphicFamily,
    NotDiscreteGpu,
    NoGraphicQueue,
    NoPresentQueue,
    NoComputeQueue,
    InsufficientSwapchainSupport,
    MissingExtensions,
}

/// The first position of `s` that holds `true`.
pub open spec fn spec_first_true(s: Seq<bool>) -> Option<int>
    decreases s.len(),
{
    if s.len() == 0 {
        None
    } else if s[0] {
        Some(0)
    } else {
        match spec_first_true(s.drop_first()) {
            Some(i) => Some(i + 1),
            None => None,
        }
    }
}

pub open spec fn graphics_of(s: Seq<QueueCaps>) -> Seq<bool> {
    s.map_values(|c: QueueCaps| c.graphics)
}

pub open spec fn compute_of(s: Seq<QueueCaps>) -> Seq<bool> {
    s.map_values(|c: QueueCaps| c.compute)
}

pub open spec fn transfer_of(s: Seq<QueueCaps>) -> Seq<bool> {
    s.map_values(|c: QueueCaps| c.transfer)
}

pub open spec fn as_u32(i: Option<int>) -> Option<u32> {
    match i {
        Some(x) => Some(x as u32),
        None => None,
    }
}

/// `spec_first_true` is the first position that holds `true`.
pub proof fn lemma_first_true(s: Seq<bool>)
    ensures
        match spec_first_true(s) {
            Some(i) => 0 <= i < s.len() && s[i] && forall|j: int| 0 <= j < i ==> !s[j],
            None => forall|j: int| 0 <= j < s.len() ==> !s[j],
        },
    decreases s.len(),
{
    if s.len() > 0 && !s[0] {
        lemma_first_true(s.drop_first());
        assert forall|j: int| 0 < j < s.len() implies s[j] == s.drop_first()[j - 1] by {}
    }
}

/// The first position of `s` that holds `true`.
pub fn first_true(s: &Vec<bool>) -> (r: Option<usize>)
    ensures
        match r {
            Some(i) => spec_first_true(s@) == Some(i as int),
            None => spec_first_true(s@) is None,
        },
{
    proof {
        lemma_first_true(s@);
    }
    let mut i: usize = 0;
    while i < s.len()
        invariant
            i <= s.len(),
            forall|j: int| 0 <= j < i ==> !s@[j],
            match spec_first_true(s@) {
                Some(k) => 0 <= k < s@.len() && s@[k] && forall|j: int| 0 <= j < k ==> !s@[j],
                None => forall|j: int| 0 <= j < s@.len() ==> !s@[j],
            },
        decreases s.len() - i,
    {
        if s[i] {
            return Some(i);
        }
        i = i + 1;
    }
    None
}

/// The queue families used by a device: the first graphic family, the first presenting
/// family, and the first transfer and compute families when there are some.
#[derive(Clone, Copy, Debug)]
pub struct QueueFamilyIndices {
    pub graphics: u32,
    pub present: u32,
    pub transfer: Option<u32>,
    pub compute: Option<u32>,
}

impl QueueFamilyIndices {
    /// Picks the first family of each kind among `properties` (with `present_support` telling
    /// which can present); fails on a missing presenting family first, then on a missing
    /// graphic family.
    pub fn get(properties: &Vec<QueueCaps>, present_support: &Vec<bool>) -> (r: Result<
        QueueFamilyIndices,
        DeviceError,
    >)
        requires
            properties.len() <= u32::MAX,
        ensures
            spec_first_true(present_support@) is None ==> r == Err::<QueueFamilyIndices, DeviceError>(
                DeviceError::NoPresentFamily,
            ),
            spec_first_true(present_support@) is Some && spec_first_true(graphics_of(properties@)) is None
                ==> r == Err::<QueueFamilyIndices, DeviceError>(DeviceError::NoGraphicFamily),
            r matches Ok(q) ==> {
                &&& Some(q.graphics) == as_u32(spec_first_true(graphics_of(properties@)))
                &&& Some(q.present) == as_u32(spec_first_true(present_support@))
                &&& q.transfer == as_u32(spec_first_true(transfer_of(properties@)))
                &&& q.compute == as_u32(spec_first_true(compute_of(properties@)))
            },
            r is Ok <==> (spec_first_true(present_support@) is Some && spec_first_true(
                graphics_of(properties@),
            ) is Some),
    {
        let mut graphics: Vec<bool> = Vec::new();
        let mut transfer: Vec<bool> = Vec::new();
        let mut compute: Vec<bool> = Vec::new();
        let mut i: usize = 0;
        while i < properties.len()
            invariant
                i <= properties.len(),
                graphics@ =~= graphics_of(properties@).take(i as int),
                transfer@ =~= transfer_of(properties@).take(i as int),
                compute@ =~= compute_of(properties@).take(i as int),
            decreases properties.len() - i,
        {
            graphics.push(properties[i].graphics);
            transfer.push(properties[i].transfer);
            compute.push(properties[i].compute);
            i = i + 1;
        }
        assert(graphics@ =~= graphics_of(properties@));
        assert(transfer@ =~= transfer_of(properties@));
        assert(compute@ =~= compute_of(properties@));
        proof {
            lemma_first_true(graphics@);
            lemma_first_true(transfer@);
            lemma_first_true(compute@);
        }
        let graphics = first_true(&graphics);
        let transfer = first_true(&transfer);
        let compute = first_true(&compute);
        let present = match first_true(present_support) {
            None => {
                return Err(DeviceError::NoPresentFamily);
            },
            Some(p) => p,
        };
        match graphics {
            Some(g) => Ok(
                QueueFamilyIndices {
                    graphics: g as u32,
                    transfer: match transfer {
                        Some(t) => Some(t as u32),
                        None => None,
                    },
                    compute: match compute {
                        Some(c) => Some(c as u32),
                        None => None,
                    },
                    present: present as u32,
                },
            ),
            None => Err(DeviceError::NoGraphicFamily),
        }
    }
}

/// Every name of `required` is one of `available`.
pub open spec fn spec_all_available(required: Seq<Seq<u8>>, available: Seq<Seq<u8>>) -> bool {
    forall|i: int| 0 <= i < required.len() ==> available.contains(#[trigger] required[i])
}

fn same_bytes(a: &Vec<u8>, b: &Vec<u8>) -> (r: bool)
    ensures
        r == (a@ == b@),
{
    if a.len() != b.len() {
        return false;
    }
    let mut i: usize = 0;
    while i < a.len()
        invariant
            i <= a.len(),
            a.len() == b.len(),
            forall|j: int| 0 <= j < i ==> a@[j] == b@[j],
        decreases a.len() - i,
    {
        if a[i] != b[i] {
            return false;
        }
        i = i + 1;
    }
    assert(a@ =~= b@);
    true
}

/// Whether each extension name of `required` is among `available`.
pub fn required_extensions_available(required: &Vec<Vec<u8>>, available: &Vec<Vec<u8>>) -> (r: bool)
    ensures
        r == spec_all_available(required@.map_values(|v: Vec<u8>| v@), available@.map_values(|v: Vec<u8>| v@)),
{
    let ghost req = required@.map_values(|v: Vec<u8>| v@);
    let ghost avail = available@.map_values(|v: Vec<u8>| v@);
    let mut i: usize = 0;
    while i < required.len()
        invariant
            i <= required.len(),
            req == required@.map_values(|v: Vec<u8>| v@),
            avail == available@.map_values(|v: Vec<u8>| v@),
            forall|k: int| 0 <= k < i ==> avail.contains(#[trigger] req[k]),
        decreases required.len() - i,
    {
        let mut found = false;
        let mut j: usize = 0;
        while j < available.len()
            invariant
                j <= available.len(),
                i < required.len(),
                req == required@.map_values(|v: Vec<u8>| v@),
                avail == available@.map_values(|v: Vec<u8>| v@),
                found ==> avail.contains(req[i as int]),
                !found ==> forall|k: int| 0 <= k < j ==> avail[k] != req[i as int],
            decreases available.len() - j,
        {
            if !found && same_bytes(&required[i], &available[j]) {
                found = true;
                assert(avail[j as int] == req[i as int]);
            }
            j = j + 1;
        }
        if !found {
            assert(!avail.contains(req[i as int]));
            return false;
        }
        i = i + 1;
    }
    true
}

/// `VK_LAYER_KHRONOS_validation`, the name of the validation layer.
pub open spec fn validation_layer_name() -> Seq<u8> {
    seq![
        86u8, 75u8, 95u8, 76u8, 65u8, 89u8, 69u8, 82u8, 95u8, 75u8, 72u8, 82u8, 79u8, 78u8, 79u8, 83u8, 95u8, 118u8,
        97u8, 108u8, 105u8, 100u8, 97u8, 116u8, 105u8, 111u8, 110u8,
    ]
}

/// Whether the instance is created with the validation layer: when it is asked for and the
/// driver offers it (when it is asked for but not offered, it is left out).
pub fn use_validation_layer(requested: bool, available: &Vec<Vec<u8>>) -> (r: bool)
    ensures
        r == (requested && available@.map_values(|v: Vec<u8>| v@).contains(validation_layer_name())),
{
    let name: Vec<u8> = vec![
        86u8, 75u8, 95u8, 76u8, 65u8, 89u8, 69u8, 82u8, 95u8, 75u8, 72u8, 82u8, 79u8, 78u8, 79u8, 83u8, 95u8, 118u8,
        97u8, 108u8, 105u8, 100u8, 97u8, 116u8, 105u8, 111u8, 110u8,
    ];
    assert(name@ =~= validation_layer_name());
    let mut required: Vec<Vec<u8>> = Vec::new();
    required.push(name);
    let offered = required_extensions_available(&required, available);
    proof {
        let req = required@.map_values(|v: Vec<u8>| v@);
        assert(req[0] == validation_layer_name());
        assert(req.len() == 1);
    }
    requested && offered
}

/// Whether a physical device can be used: it must be a discrete GPU, have graphic, present
/// and compute queues, offer at least one surface format and one present mode, and support
/// every required extension; the first unmet condition, in that order, is the error.
pub fn check_physical_device(
    is_discrete_gpu: bool,
    queues: &Queues,
    format_count: usize,
    present_mode_count: usize,
    extensions_available: bool,
) -> (r: Result<(), DeviceError>)
    requires
        queues.wf(),
    ensures
        r == (if !is_discrete_gpu {
            Err(DeviceError::NotDiscreteGpu)
        } else if spec_role(queues.spec_selection(), QueueFlag::Graphic) is None {
            Err(DeviceError::NoGraphicQueue)
        } else if spec_role(queues.spec_selection(), QueueFlag::Present) is None {
            Err(DeviceError::NoPresentQueue)
        } else if spec_role(queues.spec_selection(), QueueFlag::Compute) is None {
            Err(DeviceError::NoComputeQueue)
        } else if format_count == 0 || present_mode_count == 0 {
            Err(DeviceError::InsufficientSwapchainSupport)
        } else if !extensions_available {
            Err(DeviceError::MissingExtensions)
        } else {
            Ok(())
        }),
{
    if !is_discrete_gpu {
        return Err(DeviceError::NotDiscreteGpu);
    }
    if queues.find_queue(&QueueFlag::Graphic).is_none() {
        return Err(DeviceError::NoGraphicQueue);
    }
    if queues.find_queue(&QueueFlag::Present).is_none() {
        return Err(DeviceError::NoPresentQueue);
    }
    if queues.find_queue(&QueueFlag::Compute).is_none() {
        return Err(DeviceError::NoComputeQueue);
    }
    if format_count == 0 || present_mode_count == 0 {
        return Err(DeviceError::InsufficientSwapchainSupport);
    }
    if extensions_available {
        Ok(())
    } else {
        Err(DeviceError::MissingExtensions)
    }
}

} // verus!

use vstd::prelude::*;

verus! {

/// The classes a physical graphics adapter can report, in the engine's
/// order of preference.
#[derive(Clone, Copy, PartialEq, Eq, Structural, Debug)]
pub enum AdapterKind {
    DiscreteGpu,
    IntegratedGpu,
    VirtualGpu,
    Cpu,
    Other,
}

/// What the engine needs to know of one enumerated adapter: its class,
/// whether it offers the required device extensions, and whether one of its
/// queue families supports both graphics work and presentation to the
/// engine's surface.
#[derive(Clone, Copy, PartialEq, Eq, Structural, Debug)]
pub struct AdapterCandidate {
    pub kind: AdapterKind,
    pub supports_required_extensions: bool,
    pub has_graphics_queue_for_surface: bool,
}

/// The fatal initialisation failures: no adapter can drive the surface, or
/// debugging was requested but the validation layer is not installed.
#[derive(Clone, Copy, PartialEq, Eq, Structural, Debug)]
pub enum DeviceError {
    NoSuitableAdapter,
    DebugLayerUnavailable,
}

/// Preference rank of an adapter class; lower is better.
pub open spec fn adapter_rank_spec(kind: AdapterKind) -> int {
    match kind {
        AdapterKind::DiscreteGpu => 0,
        AdapterKind::IntegratedGpu => 1,
        AdapterKind::VirtualGpu => 2,
        AdapterKind::Cpu => 3,
        AdapterKind::Other => 4,
    }
}

pub fn adapter_rank(kind: AdapterKind) -> (r: u8)
    ensures
        r == adapter_rank_spec(kind),
{
    match kind {
        AdapterKind::DiscreteGpu => 0,
        AdapterKind::IntegratedGpu => 1,
        AdapterKind::VirtualGpu => 2,
        AdapterKind::Cpu => 3,
        AdapterKind::Other => 4,
    }
}

/// An adapter qualifies when it offers the required extensions and a queue
/// family that can both render and present to the surface.
pub open spec fn adapter_suitable(c: AdapterCandidate) -> bool {
    c.supports_required_extensions && c.has_graphics_queue_for_surface
}

/// Pick the adapter to create the logical device on: among the suitable
/// candidates, the first one of the best (lowest-ranked) class — exactly
/// the element a minimum-by-rank scan returns.  Fails with
/// `NoSuitableAdapter` if and only if no candidate is suitable.
pub fn select_adapter(candidates: &Vec<AdapterCandidate>) -> (r: Result<usize, DeviceError>)
    ensures
        r is Err <==> (forall|j: int|
            0 <= j < candidates@.len() ==> !adapter_suitable(#[trigger] candidates@[j])),
        r is Err ==> r == Result::<usize, DeviceError>::Err(DeviceError::NoSuitableAdapter),
        r matches Ok(i) ==> {
            &&& i < candidates@.len()
            &&& adapter_suitable(candidates@[i as int])
            &&& (forall|j: int|
                0 <= j < candidates@.len() && adapter_suitable(#[trigger] candidates@[j])
                    ==> adapter_rank_spec(candidates@[i as int].kind) <= adapter_rank_spec(
                    candidates@[j].kind,
                ))
            &&& (forall|j: int|
                0 <= j < i && adapter_suitable(#[trigger] candidates@[j])
                    ==> adapter_rank_spec(candidates@[i as int].kind) < adapter_rank_spec(
                    candidates@[j].kind,
                ))
        },
{
    let mut best: Option<usize> = None;
    let mut best_rank: u8 = 255;
    let mut k: usize = 0;
    while k < candidates.len()
        invariant
            k <= candidates@.len(),
            best is None ==> (forall|j: int|
                0 <= j < k ==> !adapter_suitable(#[trigger] candidates@[j])),
            best matches Some(i) ==> {
                &&& i < k
                &&& adapter_suitable(candidates@[i as int])
                &&& best_rank == adapter_rank_spec(candidates@[i as int].kind)
                &&& (forall|j: int|
                    0 <= j < k && adapter_suitable(#[trigger] candidates@[j]) ==> best_rank
                        <= adapter_rank_spec(candidates@[j].kind))
                &&& (forall|j: int|
                    0 <= j < i && adapter_suitable(#[trigger] candidates@[j]) ==> best_rank
                        < adapter_rank_spec(candidates@[j].kind))
            },
        decreases candidates@.len() - k,
    {
        let c = candidates[k];
        if c.supports_required_extensions && c.has_graphics_queue_for_surface {
            let rank = adapter_rank(c.kind);
            match best {
                Option::Some(_) => {
                    if rank < best_rank {
                        best = Some(k);
                        best_rank = rank;
                    }
                },
                Option::None => {
                    best = Some(k);
                    best_rank = rank;
                },
            }
        }
        k += 1;
    }
    match best {
        Option::Some(i) => Ok(i),
        Option::None => Err(DeviceError::NoSuitableAdapter),
    }
}

/// How many swapchain images to request: one more than the platform's
/// minimum, for slack in the presentation queue, but never more than the
/// platform's maximum when it reports one.
pub fn clamp_image_count(min_image_count: u32, max_image_count: Option<u32>) -> (r: u32)
    requires
        min_image_count < u32::MAX,
    ensures
        r == ({
            let want = min_image_count + 1;
            match max_image_count {
                Some(m) => if want > m {
                    m as int
                } else {
                    want
                },
                None => want,
            }
        }),
{
    let mut count = min_image_count + 1;
    if let Option::Some(m) = max_image_count {
        if count > m {
            count = m;
        }
    }
    count
}

/// Whether the requested diagnostic setup can be honoured: succeeds exactly
/// when debugging is off or the validation layer is installed; otherwise the
/// debug-layer error, reported once at startup.
pub fn check_debug_layer(debug_requested: bool, validation_layer_present: bool) -> (r: Result<
    (),
    DeviceError,
>)
    ensures
        r is Ok <==> (!debug_requested || validation_layer_present),
        r is Err ==> r == Result::<(), DeviceError>::Err(DeviceError::DebugLayerUnavailable),
{
    if debug_requested && !validation_layer_present {
        Err(DeviceError::DebugLayerUnavailable)
    } else {
        Ok(())
    }
}

} // verus!

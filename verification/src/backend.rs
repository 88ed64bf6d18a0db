//! Renderer backend selection at start-up and the cache of the GPU backend
//! that last reached a first paint.

use vstd::prelude::*;

verus! {

/// `str::to_lowercase`: the lowercase mapping of the Unicode `Lowercase`
/// property, applied to each character.
pub uninterp spec fn lowercase(s: Seq<char>) -> Seq<char>;

/// Calls `str::to_lowercase`; the result is named by [`lowercase`].
#[verifier::external_body]
fn to_lowercase(s: &str) -> (r: String)
    ensures
        r@ == lowercase(s@),
{
    s.to_lowercase()
}

/// The GPU backend names the renderer's backend selector accepts.
pub open spec fn is_known_backend(name: Seq<char>) -> bool {
    name == "vulkan"@ || name == "dx12"@ || name == "metal"@ || name == "gl"@
}

/// `a` and `b` hold the same characters.
pub fn str_equals(a: &str, b: &str) -> (r: bool)
    ensures
        r == (a@ == b@),
{
    let n = a.unicode_len();
    if n != b.unicode_len() {
        return false;
    }
    let mut i: usize = 0;
    while i < n
        invariant
            n == a@.len(),
            n == b@.len(),
            i <= n,
            forall|k: int| 0 <= k < i ==> a@[k] == b@[k],
        decreases n - i,
    {
        if a.get_char(i) != b.get_char(i) {
            return false;
        }
        i = i + 1;
    }
    assert(a@ =~= b@);
    true
}

pub fn known_backend(name: &str) -> (r: bool)
    ensures
        r == is_known_backend(name@),
{
    str_equals(name, "vulkan") || str_equals(name, "dx12") || str_equals(name, "metal") || str_equals(name, "gl")
}

/// The backend cache kept in the settings file.
#[derive(Debug, Clone)]
pub struct BackendCache {
    /// Set before a launch tries `verified`; cleared once the launch
    /// reaches its first paint. Still set at start-up means the last try
    /// crashed.
    pub pending: Option<String>,
    /// The backend that last reached a first paint.
    pub verified: Option<String>,
}

/// How the app starts its renderer.
#[derive(Debug, Clone)]
pub struct BackendPlan {
    /// The renderer to request (`ICED_BACKEND`), unless the environment
    /// already chose one or no GPU renderer is built in.
    pub renderer: Option<&'static str>,
    /// The GPU backend to request (`WGPU_BACKEND`), skipping the probe.
    pub gpu_backend: Option<String>,
    /// The cache changed and is saved.
    pub save: bool,
}

pub open spec fn opt_view(o: Option<String>) -> Option<Seq<char>> {
    match o {
        Some(s) => Some(s@),
        None => None,
    }
}

/// The cache as (pending, verified) names.
pub open spec fn cache_of(c: BackendCache) -> (Option<Seq<char>>, Option<Seq<char>>) {
    (opt_view(c.pending), opt_view(c.verified))
}

/// A GPU launch's plan from the cache: the backend to request, the cache
/// afterwards, and whether it is saved. A pending entry means the last try
/// never painted: the cache is cleared and wgpu probes. Otherwise a
/// verified backend is requested and marked pending until this launch
/// paints.
pub open spec fn gpu_plan(c: (Option<Seq<char>>, Option<Seq<char>>)) -> (
    Option<Seq<char>>,
    (Option<Seq<char>>, Option<Seq<char>>),
    bool,
) {
    if c.0 is Some {
        (None, (None, None), true)
    } else if c.1 is Some {
        (c.1, (c.1, c.1), true)
    } else {
        (None, (None, None), false)
    }
}

/// The cache after a launch painted with the lowercased backend `name`,
/// and whether it is saved: a known name becomes the verified backend and
/// clears the pending mark; any other name leaves the cache alone.
pub open spec fn after_paint(c: (Option<Seq<char>>, Option<Seq<char>>), name: Seq<char>) -> (
    (Option<Seq<char>>, Option<Seq<char>>),
    bool,
) {
    if is_known_backend(name) {
        ((None, Some(name)), true)
    } else {
        (c, false)
    }
}

/// Pick the renderer at start-up. A renderer already set in the environment
/// is honoured; without the GPU build the software renderer is the default;
/// with hardware acceleration on, wgpu starts as [`gpu_plan`] says.
pub fn plan_backend(renderer_set: bool, gpu_build: bool, hardware_acceleration: bool, cache: &mut BackendCache) -> (p: BackendPlan)
    ensures
        (renderer_set || !gpu_build) ==> p.renderer is None && p.gpu_backend is None && !p.save
            && cache_of(*final(cache)) == cache_of(*old(cache)),
        !renderer_set && gpu_build && !hardware_acceleration ==> (p.renderer matches Some(r) && r@ == "tiny-skia"@
            && p.gpu_backend is None && !p.save && cache_of(*final(cache)) == cache_of(*old(cache))),
        !renderer_set && gpu_build && hardware_acceleration ==> (p.renderer matches Some(r) && r@ == "wgpu"@
            && (opt_view(p.gpu_backend), cache_of(*final(cache)), p.save) == gpu_plan(cache_of(*old(cache)))),
{
    if renderer_set || !gpu_build {
        return BackendPlan { renderer: None, gpu_backend: None, save: false };
    }
    if !hardware_acceleration {
        return BackendPlan { renderer: Some("tiny-skia"), gpu_backend: None, save: false };
    }
    if cache.pending.is_some() {
        cache.pending = None;
        cache.verified = None;
        return BackendPlan { renderer: Some("wgpu"), gpu_backend: None, save: true };
    }
    match &cache.verified {
        Some(v) => {
            let chosen = v.clone();
            cache.pending = Some(v.clone());
            BackendPlan { renderer: Some("wgpu"), gpu_backend: Some(chosen), save: true }
        },
        None => BackendPlan { renderer: Some("wgpu"), gpu_backend: None, save: false },
    }
}

/// Record a lowercased backend name the GPU renderer reported at first
/// paint: a known name becomes the verified backend and clears the pending
/// mark (returns `true`: save); anything else (a renamed variant, a dummy
/// or software backend) leaves the cache alone.
pub fn accept_backend(normalised: String, cache: &mut BackendCache) -> (saved: bool)
    ensures
        (cache_of(*final(cache)), saved) == after_paint(cache_of(*old(cache)), normalised@),
{
    if known_backend(normalised.as_str()) {
        cache.pending = None;
        cache.verified = Some(normalised);
        true
    } else {
        false
    }
}

/// The renderer reached its first paint with `reported` (its backend's
/// debug name): lowercase it and record it when it is a known backend.
pub fn backend_discovered(reported: &str, cache: &mut BackendCache) -> (saved: bool)
    ensures
        (cache_of(*final(cache)), saved) == after_paint(cache_of(*old(cache)), lowercase(reported@)),
{
    let normalised = to_lowercase(reported);
    accept_backend(normalised, cache)
}

/// A backend that reached its first paint is requested on the next launch
/// (and marked pending); if that launch never paints, the launch after it
/// clears the cache and lets wgpu probe again.
pub proof fn lemma_painted_backend_is_reused(c: (Option<Seq<char>>, Option<Seq<char>>), name: Seq<char>)
    requires
        is_known_backend(name),
    ensures
        gpu_plan(after_paint(c, name).0).0 == Some(name),
        gpu_plan(after_paint(c, name).0).1 == (Some(name), Some(name)),
        gpu_plan(gpu_plan(after_paint(c, name).0).1) == (None::<Seq<char>>, (None::<Seq<char>>, None::<Seq<char>>), true),
{
}

} // verus!

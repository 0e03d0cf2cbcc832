use vstd::prelude::*;

use crate::error::ImagioError;
use crate::record::{spec_filename, ImagioImage};
use crate::store::{clone_bytes, MemoryStore};
use crate::transform::{render, spec_render_err, spec_render_guaranteed, spec_render_ok};
use crate::variant::Variant;
use vstd::pervasive::unreached;

verus! {

/// The two storage namespaces of the service: durable originals and
/// the disposable derivative cache.
#[derive(Clone, Copy, Debug, PartialEq, Eq, Structural)]
pub enum Namespace {
    Originals,
    Derivatives,
}

/// What the orchestrator asks its driver to do next: one storage
/// operation, or the outcome of the resolution.
pub enum StorageAction {
    Read { ns: Namespace, key: String },
    Exists { ns: Namespace, key: String },
    Write { ns: Namespace, key: String, bytes: Vec<u8> },
    Finish { bytes: Vec<u8> },
    Abort { error: ImagioError },
}

/// What the driver reports back after performing a storage operation.
pub enum StorageEvent {
    Loaded { bytes: Vec<u8> },
    Missing,
    Found { present: bool },
    Stored,
    Failed { error: ImagioError },
}

/// Where a resolution stands: which storage answer it is waiting for.
pub enum Step {
    AwaitOriginal,
    AwaitProbe,
    AwaitCached,
    AwaitSource,
    AwaitStore { bytes: Vec<u8> },
    Settled,
}

/// One in-flight resolution of `(image, variant)`: a state machine
/// whose storage operations are performed by a driver, so the same
/// decision logic serves any backend.
pub struct Resolution {
    pub image: ImagioImage,
    pub variant: Variant,
    pub step: Step,
}

pub open spec fn action_reads(a: StorageAction, ns: Namespace, key: Seq<char>) -> bool {
    &&& a matches StorageAction::Read { ns: n, key: k } && n == ns && k@ == key
}

pub open spec fn action_probes(a: StorageAction, ns: Namespace, key: Seq<char>) -> bool {
    &&& a matches StorageAction::Exists { ns: n, key: k } && n == ns && k@ == key
}

pub open spec fn action_finishes(a: StorageAction, bytes: Seq<u8>) -> bool {
    &&& a matches StorageAction::Finish { bytes: b } && b@ == bytes
}

pub open spec fn action_aborts(a: StorageAction, error: ImagioError) -> bool {
    &&& a matches StorageAction::Abort { error: e } && e == error
}

/// The events a step can be answered with.
pub open spec fn spec_accepts(step: Step, ev: StorageEvent) -> bool {
    match step {
        Step::AwaitOriginal => ev is Loaded || ev is Missing || ev is Failed,
        Step::AwaitCached => ev is Loaded || ev is Missing || ev is Failed,
        Step::AwaitSource => ev is Loaded || ev is Missing || ev is Failed,
        Step::AwaitProbe => ev is Found || ev is Failed,
        Step::AwaitStore { .. } => ev is Stored || ev is Failed,
        Step::Settled => false,
    }
}

impl Resolution {
    /// A resolution is consistent when its step can only be one the
    /// variant reaches: `Original` is read directly and never probes
    /// the cache or transforms.
    pub open spec fn wf(&self) -> bool {
        match self.step {
            Step::AwaitOriginal => self.variant is Original,
            Step::AwaitProbe => !(self.variant is Original),
            Step::AwaitCached => !(self.variant is Original),
            Step::AwaitSource => !(self.variant is Original),
            Step::AwaitStore { .. } => !(self.variant is Original),
            Step::Settled => true,
        }
    }
}

/// The transition relation of the orchestrator, one case per step and
/// event. On a cache probe hit the cached bytes are read back; on a
/// miss the original is read, rendered, and written through before the
/// result is handed out. A failed write-through fails the whole
/// resolution (caching is part of the operation's success criterion).
/// A cached entry that disappears between probe and read is treated as
/// a miss and regenerated. Aborting instead of writing through is
/// allowed only where the rendering is not owed to succeed
/// (`spec_render_guaranteed`).
pub open spec fn spec_advance(
    img: ImagioImage,
    v: Variant,
    s0: Step,
    ev: StorageEvent,
    s1: Step,
    a: StorageAction,
) -> bool {
    let okey = spec_filename(img, Variant::Original);
    let dkey = spec_filename(img, v);
    match (s0, ev) {
        (Step::AwaitOriginal, StorageEvent::Loaded { bytes }) => s1 is Settled && action_finishes(
            a,
            bytes@,
        ),
        (Step::AwaitOriginal, StorageEvent::Missing) => s1 is Settled && action_aborts(
            a,
            ImagioError::NotFound,
        ),
        (Step::AwaitOriginal, StorageEvent::Failed { error }) => s1 is Settled && action_aborts(
            a,
            error,
        ),
        (Step::AwaitProbe, StorageEvent::Found { present }) => if present {
            s1 is AwaitCached && action_reads(a, Namespace::Derivatives, dkey)
        } else {
            s1 is AwaitSource && action_reads(a, Namespace::Originals, okey)
        },
        (Step::AwaitProbe, StorageEvent::Failed { error }) => s1 is Settled && action_aborts(
            a,
            error,
        ),
        (Step::AwaitCached, StorageEvent::Loaded { bytes }) => s1 is Settled && action_finishes(
            a,
            bytes@,
        ),
        (Step::AwaitCached, StorageEvent::Missing) => s1 is AwaitSource && action_reads(
            a,
            Namespace::Originals,
            okey,
        ),
        (Step::AwaitCached, StorageEvent::Failed { error }) => s1 is Settled && action_aborts(
            a,
            error,
        ),
        (Step::AwaitSource, StorageEvent::Loaded { bytes }) => {
            ||| (a matches StorageAction::Write { ns, key, bytes: out } && ns
                == Namespace::Derivatives && key@ == dkey && spec_render_ok(bytes@, v, out@) && (
            s1 matches Step::AwaitStore { bytes: pend } && pend@ == out@))
            ||| (a matches StorageAction::Abort { error } && spec_render_err(bytes@, v, error)
                && !spec_render_guaranteed(bytes@, v) && s1 is Settled)
        },
        (Step::AwaitSource, StorageEvent::Missing) => s1 is Settled && action_aborts(
            a,
            ImagioError::NotFound,
        ),
        (Step::AwaitSource, StorageEvent::Failed { error }) => s1 is Settled && action_aborts(
            a,
            error,
        ),
        (Step::AwaitStore { bytes: pend }, StorageEvent::Stored) => s1 is Settled
            && action_finishes(a, pend@),
        (Step::AwaitStore { .. }, StorageEvent::Failed { error }) => s1 is Settled
            && action_aborts(a, error),
        _ => false,
    }
}

impl Resolution {
    /// Starts resolving `(image, variant)`: returns the fresh state and
    /// the first storage operation to perform. `Original` reads the
    /// originals namespace directly; anything else probes the cache.
    pub fn begin(image: ImagioImage, variant: Variant) -> (r: (Resolution, StorageAction))
        ensures
            r.0.image == image,
            r.0.variant == variant,
            r.0.wf(),
            variant is Original ==> r.0.step is AwaitOriginal && action_reads(
                r.1,
                Namespace::Originals,
                spec_filename(image, Variant::Original),
            ),
            !(variant is Original) ==> r.0.step is AwaitProbe && action_probes(
                r.1,
                Namespace::Derivatives,
                spec_filename(image, variant),
            ),
    {
        match variant {
            Variant::Original => {
                let key = image.filename(&Variant::Original);
                let state = Resolution { image, variant, step: Step::AwaitOriginal };
                (state, StorageAction::Read { ns: Namespace::Originals, key })
            },
            _ => {
                let key = image.filename(&variant);
                let state = Resolution { image, variant, step: Step::AwaitProbe };
                (state, StorageAction::Exists { ns: Namespace::Derivatives, key })
            },
        }
    }

    /// Feeds the answer of the last storage operation and returns the
    /// next one (or the outcome). On a cache miss with the original in
    /// hand, this is where the rendering happens.
    pub fn advance(&mut self, event: StorageEvent) -> (a: StorageAction)
        requires
            old(self).wf(),
            spec_accepts(old(self).step, event),
        ensures
            final(self).wf(),
            final(self).image == old(self).image,
            final(self).variant == old(self).variant,
            spec_advance(
                old(self).image,
                old(self).variant,
                old(self).step,
                event,
                final(self).step,
                a,
            ),
    {
        let mut taken = Step::Settled;
        core::mem::swap(&mut self.step, &mut taken);
        match taken {
            Step::AwaitOriginal => match event {
                StorageEvent::Loaded { bytes } => StorageAction::Finish { bytes },
                StorageEvent::Missing => StorageAction::Abort { error: ImagioError::NotFound },
                StorageEvent::Failed { error } => StorageAction::Abort { error },
                _ => unreached(),
            },
            Step::AwaitProbe => match event {
                StorageEvent::Found { present } => {
                    if present {
                        let key = self.image.filename(&self.variant);
                        self.step = Step::AwaitCached;
                        StorageAction::Read { ns: Namespace::Derivatives, key }
                    } else {
                        let key = self.image.filename(&Variant::Original);
                        self.step = Step::AwaitSource;
                        StorageAction::Read { ns: Namespace::Originals, key }
                    }
                },
                StorageEvent::Failed { error } => StorageAction::Abort { error },
                _ => unreached(),
            },
            Step::AwaitCached => match event {
                StorageEvent::Loaded { bytes } => StorageAction::Finish { bytes },
                StorageEvent::Missing => {
                    let key = self.image.filename(&Variant::Original);
                    self.step = Step::AwaitSource;
                    StorageAction::Read { ns: Namespace::Originals, key }
                },
                StorageEvent::Failed { error } => StorageAction::Abort { error },
                _ => unreached(),
            },
            Step::AwaitSource => match event {
                StorageEvent::Loaded { bytes } => {
                    match render(&bytes, &self.variant) {
                        Ok(out) => {
                            let key = self.image.filename(&self.variant);
                            let pend = clone_bytes(&out);
                            self.step = Step::AwaitStore { bytes: pend };
                            StorageAction::Write {
                                ns: Namespace::Derivatives,
                                key,
                                bytes: out,
                            }
                        },
                        Err(error) => StorageAction::Abort { error },
                    }
                },
                StorageEvent::Missing => StorageAction::Abort { error: ImagioError::NotFound },
                StorageEvent::Failed { error } => StorageAction::Abort { error },
                _ => unreached(),
            },
            Step::AwaitStore { bytes } => match event {
                StorageEvent::Stored => StorageAction::Finish { bytes },
                StorageEvent::Failed { error } => StorageAction::Abort { error },
                _ => unreached(),
            },
            Step::Settled => unreached(),
        }
    }
}

/// The result of a resolve, with byte contents abstracted to their
/// sequences.
pub open spec fn spec_result_view(r: Result<Vec<u8>, ImagioError>) -> Result<
    Seq<u8>,
    ImagioError,
> {
    match r {
        Ok(b) => Ok(b@),
        Err(e) => Err(e),
    }
}

/// What one resolve call does, over the abstract contents of the two
/// namespaces: `Original` is passed through verbatim; a cached
/// derivative is returned as it stands; otherwise the original is
/// rendered and written through, and failing is allowed only where
/// the rendering is not owed to succeed. `d0` and `d1` are the
/// derivative cache before and after the call; the originals are never
/// written.
pub open spec fn spec_resolve_post(
    o: Map<Seq<char>, Seq<u8>>,
    d0: Map<Seq<char>, Seq<u8>>,
    d1: Map<Seq<char>, Seq<u8>>,
    img: ImagioImage,
    v: Variant,
    r: Result<Seq<u8>, ImagioError>,
) -> bool {
    let okey = spec_filename(img, Variant::Original);
    let dkey = spec_filename(img, v);
    if v is Original {
        d1 == d0 && (if o.contains_key(okey) {
            r == Result::<Seq<u8>, ImagioError>::Ok(o[okey])
        } else {
            r == Result::<Seq<u8>, ImagioError>::Err(ImagioError::NotFound)
        })
    } else if d0.contains_key(dkey) {
        d1 == d0 && r == Result::<Seq<u8>, ImagioError>::Ok(d0[dkey])
    } else if !o.contains_key(okey) {
        d1 == d0 && r == Result::<Seq<u8>, ImagioError>::Err(ImagioError::NotFound)
    } else {
        match r {
            Ok(b) => spec_render_ok(o[okey], v, b) && d1 == d0.insert(dkey, b),
            Err(e) => d1 == d0 && spec_render_err(o[okey], v, e) && !spec_render_guaranteed(
                o[okey],
                v,
            ),
        }
    }
}

/// Resolves `(image, variant)` against in-memory namespaces: the
/// get-or-generate algorithm, driving the `Resolution` machine with
/// the two stores. Reads from `derivatives` if present, else reads the
/// original, renders, writes through, and returns the bytes.
pub fn resolve(
    originals: &MemoryStore,
    derivatives: &mut MemoryStore,
    image: &ImagioImage,
    variant: &Variant,
) -> (r: Result<Vec<u8>, ImagioError>)
    requires
        originals.wf(),
        old(derivatives).wf(),
    ensures
        final(derivatives).wf(),
        spec_resolve_post(
            originals@,
            old(derivatives)@,
            final(derivatives)@,
            *image,
            *variant,
            spec_result_view(r),
        ),
{
    let (mut state, first) = Resolution::begin(image.clone(), *variant);
    match first {
        StorageAction::Read { ns: _, key } => {
            match originals.read(&key) {
                Ok(b) => {
                    let done = state.advance(StorageEvent::Loaded { bytes: b });
                    match done {
                        StorageAction::Finish { bytes } => Ok(bytes),
                        _ => unreached(),
                    }
                },
                Err(_) => {
                    let done = state.advance(StorageEvent::Missing);
                    match done {
                        StorageAction::Abort { error } => Err(error),
                        _ => unreached(),
                    }
                },
            }
        },
        StorageAction::Exists { ns: _, key } => {
            let present = derivatives.exists_key(&key);
            let next = state.advance(StorageEvent::Found { present });
            match next {
                StorageAction::Read { ns: Namespace::Derivatives, key: ck } => {
                    match derivatives.read(&ck) {
                        Ok(b) => {
                            let done = state.advance(StorageEvent::Loaded { bytes: b });
                            match done {
                                StorageAction::Finish { bytes } => Ok(bytes),
                                _ => unreached(),
                            }
                        },
                        Err(_) => unreached(),
                    }
                },
                StorageAction::Read { ns: Namespace::Originals, key: ok } => {
                    match originals.read(&ok) {
                        Ok(src) => {
                            let next2 = state.advance(StorageEvent::Loaded { bytes: src });
                            match next2 {
                                StorageAction::Write { ns: _, key: wk, bytes: out } => {
                                    derivatives.write(wk, out);
                                    let done = state.advance(StorageEvent::Stored);
                                    match done {
                                        StorageAction::Finish { bytes } => Ok(bytes),
                                        _ => unreached(),
                                    }
                                },
                                StorageAction::Abort { error } => Err(error),
                                _ => unreached(),
                            }
                        },
                        Err(_) => {
                            let done = state.advance(StorageEvent::Missing);
                            match done {
                                StorageAction::Abort { error } => Err(error),
                                _ => unreached(),
                            }
                        },
                    }
                },
                _ => unreached(),
            }
        },
        _ => unreached(),
    }
}

/// Deletes the original's key when the owning record is deleted; the
/// derivative entries are left behind on purpose (stale entries are an
/// accepted leak: keys never collide across uuids, and entries are
/// cheaply regenerable). A missing key reports `NotFound`, which
/// callers treat as non-fatal.
pub fn remove_original(originals: &mut MemoryStore, image: &ImagioImage) -> (r: Result<
    (),
    ImagioError,
>)
    requires
        old(originals).wf(),
    ensures
        final(originals).wf(),
        old(originals)@.contains_key(spec_filename(*image, Variant::Original)) ==> r is Ok
            && final(originals)@ == old(originals)@.remove(
            spec_filename(*image, Variant::Original),
        ),
        !old(originals)@.contains_key(spec_filename(*image, Variant::Original)) ==> r
            == Result::<(), ImagioError>::Err(ImagioError::NotFound) && *final(originals) == *old(
            originals,
        ),
{
    let key = image.filename(&Variant::Original);
    originals.delete(&key)
}

/// Idempotent memoization: once a resolve of a non-`Original` variant
/// has succeeded, a second resolve of the same pair against the
/// resulting cache returns byte-identical content and changes nothing.
pub proof fn lemma_resolve_idempotent(
    o: Map<Seq<char>, Seq<u8>>,
    d0: Map<Seq<char>, Seq<u8>>,
    d1: Map<Seq<char>, Seq<u8>>,
    d2: Map<Seq<char>, Seq<u8>>,
    img: ImagioImage,
    v: Variant,
    b: Seq<u8>,
    r2: Result<Seq<u8>, ImagioError>,
)
    requires
        !(v is Original),
        spec_resolve_post(o, d0, d1, img, v, Ok(b)),
        spec_resolve_post(o, d1, d2, img, v, r2),
    ensures
        r2 == Result::<Seq<u8>, ImagioError>::Ok(b),
        d2 == d1,
{
}

/// Original pass-through: resolving `Original` returns exactly the
/// bytes stored under the original's key, unmodified, and never
/// touches the derivative cache.
pub proof fn lemma_original_passthrough(
    o: Map<Seq<char>, Seq<u8>>,
    d0: Map<Seq<char>, Seq<u8>>,
    d1: Map<Seq<char>, Seq<u8>>,
    img: ImagioImage,
    r: Result<Seq<u8>, ImagioError>,
)
    requires
        spec_resolve_post(o, d0, d1, img, Variant::Original, r),
    ensures
        d1 == d0,
        o.contains_key(spec_filename(img, Variant::Original)) ==> r == Result::<
            Seq<u8>,
            ImagioError,
        >::Ok(o[spec_filename(img, Variant::Original)]),
        !o.contains_key(spec_filename(img, Variant::Original)) ==> r == Result::<
            Seq<u8>,
            ImagioError,
        >::Err(ImagioError::NotFound),
{
}

/// Self-healing cache: after a derivative entry is deleted out of
/// band, a resolve of that pair succeeds — given the rendering is owed
/// to succeed, i.e. the stored original decodes and plans — returning
/// a valid rendering of the stored original and re-populating the
/// deleted entry.
pub proof fn lemma_self_healing(
    o: Map<Seq<char>, Seq<u8>>,
    d: Map<Seq<char>, Seq<u8>>,
    d1: Map<Seq<char>, Seq<u8>>,
    img: ImagioImage,
    v: Variant,
    r: Result<Seq<u8>, ImagioError>,
)
    requires
        !(v is Original),
        o.contains_key(spec_filename(img, Variant::Original)),
        spec_render_guaranteed(o[spec_filename(img, Variant::Original)], v),
        spec_resolve_post(o, d.remove(spec_filename(img, v)), d1, img, v, r),
    ensures
        r matches Ok(b) && spec_render_ok(o[spec_filename(img, Variant::Original)], v, b) && d1
            == d.remove(spec_filename(img, v)).insert(spec_filename(img, v), b),
{
}

/// A missing original fails with `NotFound` — never `DecodeError` —
/// and leaves the cache unchanged.
pub proof fn lemma_missing_original(
    o: Map<Seq<char>, Seq<u8>>,
    d0: Map<Seq<char>, Seq<u8>>,
    d1: Map<Seq<char>, Seq<u8>>,
    img: ImagioImage,
    v: Variant,
    r: Result<Seq<u8>, ImagioError>,
)
    requires
        !(v is Original),
        !d0.contains_key(spec_filename(img, v)),
        !o.contains_key(spec_filename(img, Variant::Original)),
        spec_resolve_post(o, d0, d1, img, v, r),
    ensures
        r == Result::<Seq<u8>, ImagioError>::Err(ImagioError::NotFound),
        d1 == d0,
{
}

} // verus!

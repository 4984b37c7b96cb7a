use vstd::prelude::*;
use std::collections::HashMap;
use crate::io::{text_with_uuid, uuid_text, LiquidError, LiquidErrorKind};
use crate::renderer::{LiquidAttachRendererToWindowInfo, LiquidCreateRendererInfo, LiquidRenderer, LiquidRendererTypes};
use crate::window::win32::{LiquidWindowWin32, NativeCreation};
use crate::window::{closes_program, CreateWindowInfo, LiquidWindow};

verus! {

broadcast use vstd::std_specs::hash::group_hash_axioms;

/// An engine event: a window asked to close, or the program should stop.
#[derive(Clone, Copy, Debug, PartialEq, Eq, Structural)]
pub enum Event {
    Close(u128),
    Exit,
}

/// The queue after `e` is appended.
pub open spec fn pushed(queue: Seq<Event>, e: Event) -> Seq<Event> {
    queue.push(e)
}

/// What a drain hands out, and what it leaves behind.
pub open spec fn drained(queue: Seq<Event>) -> (Seq<Event>, Seq<Event>) {
    (queue, Seq::empty())
}

/// The ordered event buffer between native callbacks and the logic thread.
/// Producers append; the single consumer takes everything at once.
pub struct EventQueue {
    events: Vec<Event>,
}

impl View for EventQueue {
    type V = Seq<Event>;

    closed spec fn view(&self) -> Seq<Event> {
        self.events@
    }
}

impl EventQueue {
    pub fn new() -> (r: EventQueue)
        ensures
            r@ == Seq::<Event>::empty(),
    {
        EventQueue { events: Vec::new() }
    }

    /// Appends one event after every event already queued.
    pub fn push(&mut self, e: Event)
        ensures
            final(self)@ == pushed(old(self)@, e),
    {
        self.events.push(e);
    }

    /// Appends `events` in their order after every event already queued.
    pub fn push_all(&mut self, events: &Vec<Event>)
        ensures
            final(self)@ == old(self)@ + events@,
    {
        let mut i: usize = 0;
        while i < events.len()
            invariant
                i <= events@.len(),
                self@ == old(self)@ + events@.take(i as int),
            decreases events@.len() - i,
        {
            assert(events@.take(i as int + 1) == events@.take(i as int).push(events@[i as int]));
            self.events.push(events[i]);
            i = i + 1;
        }
        assert(events@.take(events@.len() as int) == events@);
    }

    /// Takes every queued event, in arrival order, and leaves the queue empty.
    pub fn drain(&mut self) -> (r: Vec<Event>)
        ensures
            (r@, final(self)@) == drained(old(self)@),
    {
        let mut taken: Vec<Event> = Vec::new();
        std::mem::swap(&mut taken, &mut self.events);
        taken
    }

    pub fn len(&self) -> (r: usize)
        ensures
            r == self@.len(),
    {
        self.events.len()
    }

    pub fn is_empty(&self) -> (r: bool)
        ensures
            r == (self@.len() == 0),
    {
        self.events.len() == 0
    }
}

/// A drain hands out every queued event exactly once: it yields the queue in
/// arrival order, and a drain right after it yields nothing. In particular,
/// pushing `a` then `b` onto an empty queue and draining yields `[a, b]`.
pub proof fn lemma_drain_exactly_once(queue: Seq<Event>, a: Event, b: Event)
    ensures
        drained(queue).0 == queue,
        drained(drained(queue).1).0 == Seq::<Event>::empty(),
        drained(pushed(pushed(Seq::empty(), a), b)).0 == seq![a, b],
{
    assert(pushed(pushed(Seq::empty(), a), b) =~= seq![a, b]);
}


pub struct LiquidCreateEngineInfo {
    pub create_renderer_info: LiquidCreateRendererInfo,
}

/// Where the engine is in its life.
#[derive(Clone, Copy, Debug, PartialEq, Eq, Structural)]
pub enum EngineState {
    Constructed,
    Running,
    ShuttingDown,
    Terminated,
}

/// The only state an engine may move to from `s`.
pub open spec fn successor(s: EngineState) -> Option<EngineState> {
    match s {
        EngineState::Constructed => Some(EngineState::Running),
        EngineState::Running => Some(EngineState::ShuttingDown),
        EngineState::ShuttingDown => Some(EngineState::Terminated),
        EngineState::Terminated => None,
    }
}

/// The registry after registering `w` under `id`; `None` where `id` is taken.
pub open spec fn registered(
    m: Map<u128, LiquidWindow>,
    id: u128,
    w: LiquidWindow,
) -> Option<Map<u128, LiquidWindow>> {
    if m.contains_key(id) {
        None
    } else {
        Some(m.insert(id, w))
    }
}

/// The registry after removing `id`; `None` where no such window is there.
pub open spec fn removed(m: Map<u128, LiquidWindow>, id: u128) -> Option<Map<u128, LiquidWindow>> {
    if m.contains_key(id) {
        Some(m.remove(id))
    } else {
        None
    }
}

/// The registry after the logic thread applied `events` in order: each `Close`
/// removes its window if it is there; `Exit` changes nothing in it.
pub open spec fn after_events(m: Map<u128, LiquidWindow>, events: Seq<Event>) -> Map<u128, LiquidWindow>
    decreases events.len(),
{
    if events.len() == 0 {
        m
    } else {
        let before = after_events(m, events.drop_last());
        match events.last() {
            Event::Close(id) => before.remove(id),
            Event::Exit => before,
        }
    }
}

/// The engine: the window registry, the renderer, and where it is in its life.
/// The event queue is shared with the window callbacks separately.
pub struct LiquidEngine {
    state: EngineState,
    windows: HashMap<u128, LiquidWindow>,
    renderer: LiquidRenderer,
}

impl LiquidEngine {
    pub closed spec fn state(&self) -> EngineState {
        self.state
    }

    pub closed spec fn renderer(&self) -> LiquidRenderer {
        self.renderer
    }

    pub fn get_renderer(&self) -> (r: &LiquidRenderer)
        ensures
            *r == self.renderer(),
    {
        &self.renderer
    }

    pub closed spec fn windows(&self) -> Map<u128, LiquidWindow> {
        self.windows@
    }

    /// Every window is registered under its own identifier.
    pub open spec fn wf(&self) -> bool {
        forall|id: u128| #[trigger]
            self.windows().contains_key(id) ==> self.windows()[id].id() == id
    }

    /// A constructed engine with no window around a renderer that was built.
    pub fn new(renderer: LiquidRenderer) -> (r: LiquidEngine)
        ensures
            r.wf(),
            r.state() == EngineState::Constructed,
            r.windows() == Map::<u128, LiquidWindow>::empty(),
            r.renderer() == renderer,
    {
        LiquidEngine { state: EngineState::Constructed, windows: HashMap::new(), renderer }
    }

    pub fn current_state(&self) -> (r: EngineState)
        ensures
            r == self.state(),
    {
        self.state
    }

    /// Moves to `to`, which must be the state that follows the current one:
    /// constructed, running, shutting down, terminated.
    pub fn transition(&mut self, to: EngineState) -> (r: Result<(), LiquidError>)
        ensures
            final(self).windows() == old(self).windows(),
            final(self).renderer() == old(self).renderer(),
            r is Ok <==> successor(old(self).state()) == Some(to),
            r is Ok ==> final(self).state() == to,
            r matches Err(e) ==> e.kind == LiquidErrorKind::EngineState && final(self).state()
                == old(self).state(),
    {
        let allowed = match self.state {
            EngineState::Constructed => to == EngineState::Running,
            EngineState::Running => to == EngineState::ShuttingDown,
            EngineState::ShuttingDown => to == EngineState::Terminated,
            EngineState::Terminated => false,
        };
        if allowed {
            self.state = to;
            Ok(())
        } else {
            Err(
                LiquidError::at(
                    LiquidErrorKind::EngineState,
                    "Engine state transition out of order",
                    "src/liquid_engine.rs",
                    251,
                    17,
                ),
            )
        }
    }

    /// Attaches the renderer to a window. The Vulkan backend draws through no
    /// window surface yet, so nothing changes; the OpenGL backend cannot attach.
    pub fn attach_renderer_to_window(
        &mut self,
        attach_renderer_to_window_info: &LiquidAttachRendererToWindowInfo,
    ) -> (r: Result<bool, LiquidError>)
        requires
            old(self).renderer().backend() == LiquidRendererTypes::Vulkan,
        ensures
            r matches Ok(b) && b,
            final(self).windows() == old(self).windows(),
            final(self).renderer() == old(self).renderer(),
            final(self).state() == old(self).state(),
    {
        Ok(true)
    }

    /// How many windows the registry holds.
    pub fn window_count(&self) -> (r: usize)
        ensures
            r == self.windows().len(),
    {
        self.windows.len()
    }

    pub fn contains_window(&self, uuid: &u128) -> (r: bool)
        ensures
            r == self.windows().contains_key(*uuid),
    {
        self.windows.contains_key(uuid)
    }

    /// Registers the window built from `create_window_info` and what the OS
    /// answered under the identifier `uuid`. It fails, leaving the registry
    /// unchanged, where the OS refused the window or `uuid` is already taken.
    pub fn register_window(
        &mut self,
        uuid: u128,
        create_window_info: &CreateWindowInfo,
        native: NativeCreation,
    ) -> (r: Result<u128, LiquidError>)
        requires
            old(self).wf(),
        ensures
            final(self).wf(),
            final(self).state() == old(self).state(),
            final(self).renderer() == old(self).renderer(),
            r is Ok <==> (native is Created && !old(self).windows().contains_key(uuid)),
            r matches Ok(id) ==> id == uuid && registered(
                old(self).windows(),
                uuid,
                final(self).windows()[uuid],
            ) == Some(final(self).windows()),
            r matches Ok(id) ==> final(self).windows()[uuid].ends_program()
                == closes_program(
                create_window_info.close_exits_program,
                create_window_info.parent_window,
            ),
            native matches NativeCreation::Created { window_handle, instance } ==> (r is Ok
                ==> final(self).windows()[uuid].handles() == (window_handle, instance)),
            r is Err ==> final(self).windows() == old(self).windows(),
            native == NativeCreation::ClassRejected ==> (r matches Err(e) && e.kind
                == LiquidErrorKind::ClassRegistration(uuid) && e.msg@ == "Unable to register class: "@
                + uuid_text(uuid)),
            native == NativeCreation::WindowRejected ==> (r matches Err(e) && e.kind
                == LiquidErrorKind::WindowCreation(uuid) && e.msg@ == "Unable to create window: "@
                + uuid_text(uuid)),
            (native is Created && old(self).windows().contains_key(uuid)) ==> (r matches Err(e)
                && e.kind == LiquidErrorKind::WindowAlreadyRegistered(uuid) && e.msg@
                == "A window is already registered under uuid "@ + uuid_text(uuid)),
    {
        let window = match LiquidWindowWin32::new(uuid, create_window_info, native) {
            Ok(w) => w,
            Err(e) => {
                return Err(e);
            },
        };
        if self.windows.contains_key(&uuid) {
            return Err(
                LiquidError::at(
                    LiquidErrorKind::WindowAlreadyRegistered(uuid),
                    text_with_uuid("A window is already registered under uuid ", uuid).as_str(),
                    "src/liquid_engine.rs",
                    341,
                    17,
                ),
            );
        }
        self.windows.insert(uuid, LiquidWindow::Win32(window));
        Ok(uuid)
    }

    /// Creates a window under a fresh random identifier, from what the OS
    /// answered when asked for the native window. On success the identifier was
    /// not in the registry before and now names the new window.
    pub fn create_window(&mut self, create_window_info: &CreateWindowInfo, native: NativeCreation) -> (r:
        Result<u128, LiquidError>)
        requires
            old(self).wf(),
        ensures
            final(self).wf(),
            final(self).state() == old(self).state(),
            final(self).renderer() == old(self).renderer(),
            creation_step(old(self).windows(), created_id(&r), final(self).windows()),
            r is Ok ==> native is Created,
            r matches Ok(id) ==> !old(self).windows().contains_key(id),
            r matches Ok(id) ==> final(self).windows()[id].id() == id
                && final(self).windows()[id].ends_program() == closes_program(
                create_window_info.close_exits_program,
                create_window_info.parent_window,
            ),
            native matches NativeCreation::Created { window_handle, instance } ==> (r matches Ok(
                id,
            ) ==> final(self).windows()[id].handles() == (window_handle, instance)),
            r is Err ==> final(self).windows() == old(self).windows(),
            native is Created ==> (r is Ok || (r matches Err(e)
                && e.kind is WindowAlreadyRegistered && old(self).windows().contains_key(
                e.kind->WindowAlreadyRegistered_0,
            ))),
            native == NativeCreation::ClassRejected ==> (r matches Err(e) && e.kind
                is ClassRegistration && e.msg@ == "Unable to register class: "@ + uuid_text(
                e.kind->ClassRegistration_0,
            )),
            native == NativeCreation::WindowRejected ==> (r matches Err(e) && e.kind
                is WindowCreation && e.msg@ == "Unable to create window: "@ + uuid_text(
                e.kind->WindowCreation_0,
            )),
    {
        let uuid = new_window_id();
        let r = self.register_window(uuid, create_window_info, native);
        proof {
            if r is Ok {
                assert(self.windows().contains_key(uuid));
            }
        }
        r
    }

    /// Removes the window `uuid` from the registry and hands it back for its
    /// native handle to be released; removal comes first, so that no callback
    /// finds an entry whose handle is gone.
    pub fn destroy_window(&mut self, uuid: &u128) -> (r: Result<LiquidWindow, LiquidError>)
        requires
            old(self).wf(),
        ensures
            final(self).wf(),
            final(self).state() == old(self).state(),
            final(self).renderer() == old(self).renderer(),
            r is Ok <==> old(self).windows().contains_key(*uuid),
            r matches Ok(w) ==> w == old(self).windows()[*uuid] && removed(
                old(self).windows(),
                *uuid,
            ) == Some(final(self).windows()),
            r matches Err(e) ==> e.kind == LiquidErrorKind::WindowNotFound(*uuid) && e.msg@
                == "Unable to find and destroy window of uuid "@ + uuid_text(*uuid)
                && final(self).windows() == old(self).windows(),
    {
        match self.windows.remove(uuid) {
            Some(w) => Ok(w),
            None => Err(
                LiquidError::at(
                    LiquidErrorKind::WindowNotFound(*uuid),
                    text_with_uuid("Unable to find and destroy window of uuid ", *uuid).as_str(),
                    "src/liquid_engine.rs",
                    422,
                    17,
                ),
            ),
        }
    }

    /// `destroy_window` for the identifier whose bytes, most significant
    /// first, are `uuid`.
    pub fn destroy_window_raw(&mut self, uuid: &[u8; 16]) -> (r: Result<LiquidWindow, LiquidError>)
        requires
            old(self).wf(),
        ensures
            final(self).wf(),
            final(self).state() == old(self).state(),
            final(self).renderer() == old(self).renderer(),
            exists|id: u128|
                id as nat == be_value(uuid@) && {
                    &&& (r is Ok <==> old(self).windows().contains_key(id))
                    &&& (r matches Ok(w) ==> w == old(self).windows()[id] && removed(
                        old(self).windows(),
                        id,
                    ) == Some(final(self).windows()))
                    &&& (r matches Err(e) ==> e.kind == LiquidErrorKind::WindowNotFound(id) && e.msg@
                        == "Unable to find and destroy window of uuid "@ + uuid_text(id)
                        && final(self).windows() == old(self).windows())
                },
    {
        let id = id_from_bytes(uuid);
        self.destroy_window(&id)
    }

    /// `get_liquid_window` for the identifier whose bytes, most significant
    /// first, are `uuid`.
    pub fn get_liquid_window_raw(&self, uuid: &[u8; 16]) -> (r: Result<&LiquidWindow, LiquidError>)
        ensures
            exists|id: u128|
                id as nat == be_value(uuid@) && {
                    &&& (r is Ok <==> self.windows().contains_key(id))
                    &&& (r matches Ok(w) ==> *w == self.windows()[id])
                    &&& (r matches Err(e) ==> e.kind == LiquidErrorKind::WindowNotFound(id) && e.msg@
                        == "Unable to find and return window of uuid "@ + uuid_text(id))
                },
    {
        let id = id_from_bytes(uuid);
        self.get_liquid_window(&id)
    }

    /// The window registered under `uuid`.
    pub fn get_liquid_window(&self, uuid: &u128) -> (r: Result<&LiquidWindow, LiquidError>)
        ensures
            r is Ok <==> self.windows().contains_key(*uuid),
            r matches Ok(w) ==> *w == self.windows()[*uuid],
            r matches Err(e) ==> e.kind == LiquidErrorKind::WindowNotFound(*uuid) && e.msg@
                == "Unable to find and return window of uuid "@ + uuid_text(*uuid),
    {
        match self.windows.get(uuid) {
            Some(w) => Ok(w),
            None => Err(
                LiquidError::at(
                    LiquidErrorKind::WindowNotFound(*uuid),
                    text_with_uuid("Unable to find and return window of uuid ", *uuid).as_str(),
                    "src/liquid_engine.rs",
                    485,
                    17,
                ),
            ),
        }
    }

    /// The logic thread's work on one drained batch: the events are applied in
    /// order, each `Close` destroying its window where it is still registered.
    /// The whole batch is applied even past an `Exit`; the result says whether
    /// one was in it, and so whether the logic loop stops after this batch.
    pub fn apply_events(&mut self, batch: &Vec<Event>) -> (exit: bool)
        requires
            old(self).wf(),
        ensures
            final(self).wf(),
            final(self).state() == old(self).state(),
            final(self).renderer() == old(self).renderer(),
            final(self).windows() == after_events(old(self).windows(), batch@),
            exit == batch@.contains(Event::Exit),
    {
        let mut exit = false;
        let mut i: usize = 0;
        while i < batch.len()
            invariant
                i <= batch@.len(),
                self.wf(),
                self.state() == old(self).state(),
                self.renderer() == old(self).renderer(),
                self.windows() == after_events(old(self).windows(), batch@.take(i as int)),
                exit == batch@.take(i as int).contains(Event::Exit),
            decreases batch@.len() - i,
        {
            let ghost prefix = batch@.take(i as int + 1);
            assert(prefix.drop_last() == batch@.take(i as int));
            assert(prefix.last() == batch@[i as int]);
            match batch[i] {
                Event::Close(id) => {
                    let _ = self.destroy_window(&id);
                },
                Event::Exit => {
                    exit = true;
                },
            }
            proof {
                if batch@[i as int] == Event::Exit {
                    assert(prefix[i as int] == Event::Exit);
                } else if exit {
                    let j = choose|j: int| 0 <= j < i && batch@.take(i as int)[j] == Event::Exit;
                    assert(prefix[j] == Event::Exit);
                } else {
                    assert forall|j: int| 0 <= j < prefix.len() implies prefix[j] != Event::Exit by {
                        if j < i {
                            assert(prefix[j] == batch@.take(i as int)[j]);
                        }
                    }
                }
            }
            i = i + 1;
        }
        assert(batch@.take(batch@.len() as int) == batch@);
        exit
    }
}

/// The big-endian value of a byte sequence.
pub open spec fn be_value(bytes: Seq<u8>) -> nat
    decreases bytes.len(),
{
    if bytes.len() == 0 {
        0
    } else {
        be_value(bytes.drop_last()) * 256 + bytes.last() as nat
    }
}

/// Relies on uuid::Uuid::from_bytes and Uuid::as_u128: the identifier whose
/// sixteen bytes, most significant first, are `bytes`.
#[verifier::external_body]
fn id_from_bytes(bytes: &[u8; 16]) -> (r: u128)
    ensures
        r as nat == be_value(bytes@),
{
    uuid::Uuid::from_bytes(*bytes).as_u128()
}

/// Relies on uuid::Uuid::new_v4 and Uuid::as_u128: a random identifier from
/// the operating system's generator, with the version nibble set to 4 and the
/// variant bits to `10`. Nothing more is known of it. `new_v4` panics only
/// where the operating system cannot supply random bytes.
#[verifier::external_body]
fn new_window_id() -> (r: u128)
    ensures
        r & 0x0000_0000_0000_f000_c000_0000_0000_0000u128 == 0x0000_0000_0000_4000_8000_0000_0000_0000u128,
{
    uuid::Uuid::new_v4().as_u128()
}

/// The identifier a window creation handed back, if it succeeded.
pub open spec fn created_id(r: &Result<u128, LiquidError>) -> Option<u128> {
    match r {
        Ok(id) => Some(*id),
        Err(_) => None,
    }
}

/// How one window creation changes the registry: a success registers the new
/// window under an identifier that was free; a failure changes nothing.
pub open spec fn creation_step(
    before: Map<u128, LiquidWindow>,
    created: Option<u128>,
    after: Map<u128, LiquidWindow>,
) -> bool {
    match created {
        Some(id) => registered(before, id, after[id]) == Some(after),
        None => after == before,
    }
}

/// The identifiers handed back by the creations that succeeded, in order.
pub open spec fn created_ids(results: Seq<Option<u128>>) -> Seq<u128>
    decreases results.len(),
{
    if results.len() == 0 {
        Seq::empty()
    } else {
        let ids = created_ids(results.drop_last());
        match results.last() {
            Some(id) => ids.push(id),
            None => ids,
        }
    }
}

/// Over any sequence of window creations, `registries[i]` being the registry
/// before creation `i` and `results[i]` what it handed back, the identifiers
/// of the successful creations are pairwise distinct and were not registered
/// at the start, every one of them names a window at the end, every window
/// registered at the start stays, and the registry grows by exactly the number
/// of successful creations.
pub proof fn lemma_creations_distinct(
    registries: Seq<Map<u128, LiquidWindow>>,
    results: Seq<Option<u128>>,
)
    requires
        registries.len() == results.len() + 1,
        registries[0].dom().finite(),
        forall|i: int|
            0 <= i < results.len() ==> creation_step(
                #[trigger] registries[i],
                results[i],
                registries[i + 1],
            ),
    ensures
        registries.last().dom().finite(),
        registries.last().len() == registries[0].len() + created_ids(results).len(),
        created_ids(results).no_duplicates(),
        forall|i: int|
            0 <= i < created_ids(results).len() ==> !registries[0].contains_key(
                #[trigger] created_ids(results)[i],
            ) && registries.last().contains_key(created_ids(results)[i]),
        forall|k: u128| registries[0].contains_key(k) ==> #[trigger] registries.last().contains_key(k),
    decreases results.len(),
{
    if results.len() > 0 {
        let earlier = registries.drop_last();
        let n = results.len() - 1;
        assert forall|i: int| 0 <= i < results.drop_last().len() implies creation_step(
            #[trigger] earlier[i],
            results.drop_last()[i],
            earlier[i + 1],
        ) by {
            assert(creation_step(registries[i], results[i], registries[i + 1]));
        }
        lemma_creations_distinct(earlier, results.drop_last());
        let before = earlier.last();
        assert(before == registries[n]);
        assert(creation_step(registries[n], results[n], registries[n + 1]));
        let ids = created_ids(results.drop_last());
        match results.last() {
            Some(id) => {
                let after = registries.last();
                let ids2 = ids.push(id);
                assert(ids2 == created_ids(results));
                assert forall|i: int| 0 <= i < ids2.len() implies !registries[0].contains_key(
                    #[trigger] ids2[i],
                ) && after.contains_key(ids2[i]) by {
                    if i < ids.len() {
                        assert(ids2[i] == ids[i]);
                    }
                }
                assert forall|i: int, j: int|
                    0 <= i < ids2.len() && 0 <= j < ids2.len() && i != j implies ids2[i]
                    != ids2[j] by {
                    if i < ids.len() && j < ids.len() {
                        assert(ids2[i] == ids[i] && ids2[j] == ids[j]);
                    } else if i < ids.len() {
                        assert(before.contains_key(ids[i]));
                    } else {
                        assert(before.contains_key(ids[j]));
                    }
                }
            },
            None => {},
        }
    }
}

/// Destroying a window twice: the first call finds and removes it, the second
/// finds nothing.
pub proof fn lemma_destroy_twice(m: Map<u128, LiquidWindow>, id: u128)
    requires
        m.contains_key(id),
    ensures
        removed(m, id) is Some,
        removed(removed(m, id).unwrap(), id) is None,
{
}

} // verus!

//! Handle lifecycle: creation with URL routing, the loop stepper, cross-
//! thread dispatch, script-to-host callback marshalling, teardown and
//! release. A handle is created whole or not at all, lives across any
//! number of loop steps and dispatches, and dies in two explicit stages:
//! `exit` tears the native resources down, `free` consumes the handle.

use vstd::prelude::*;
use vstd::utf8::valid_utf8;

use crate::control::{ControlHost, ControlModel, EventModel, Geometry};
use crate::dispatch::{DispatchQueue, LoopSignal, QueueMessage, Task};
use crate::encoding::is_valid_utf8_bytes;
use crate::url::{bytes_from, has_inline_prefix, inline_payload, is_inline_url, percent_decode_bytes};

verus! {

/// Lifecycle state of a handle. A handle is `Created` from the moment
/// `create` returns it (loop steps and dispatches are accepted) until
/// `exit` moves it to `Exited`; only an exited handle may be freed.
#[derive(Clone, Copy, PartialEq, Eq, Structural, Debug)]
pub enum LifeState {
    Created,
    Exited,
}

/// One-shot startup facts the host gathered from the operating system
/// before construction: whether the one-time environment adjustment (the
/// rendering engine's compatibility mode) succeeded, and whether the native
/// rendering control could be created.
#[derive(Clone, Copy, PartialEq, Eq, Structural, Debug)]
pub struct HostStartup {
    pub env_adjusted: bool,
    pub control_created: bool,
}

/// Outcome of a script-evaluation request.
#[derive(Clone, Copy, PartialEq, Eq, Structural, Debug)]
pub enum EvalStatus {
    /// The fragment was handed to the control.
    Accepted,
    /// The fragment was not valid UTF-8; the call was abandoned whole.
    InvalidText,
}

/// A script-to-host call marshalled out to the host: the registered
/// external callback, the payload, and the handle's user data, for the host
/// to deliver as one call.
pub struct Invocation {
    pub callback: usize,
    pub payload: Vec<u8>,
    pub userdata: usize,
}

/// Spec-level image of an `Invocation`.
#[verifier::ext_equal]
pub struct InvocationModel {
    pub callback: usize,
    pub payload: Seq<u8>,
    pub userdata: usize,
}

impl View for Invocation {
    type V = InvocationModel;

    open spec fn view(&self) -> InvocationModel {
        InvocationModel { callback: self.callback, payload: self.payload@, userdata: self.userdata }
    }
}

/// Spec-level image of a handle.
#[verifier::ext_equal]
pub struct WebViewModel {
    pub control: ControlModel,
    pub pending: Seq<QueueMessage>,
    pub enqueued: Seq<Task>,
    pub executed: Seq<Task>,
    pub window_alive: bool,
    pub callback: usize,
    pub userdata: usize,
    pub state: LifeState,
    pub invocations: Seq<InvocationModel>,
}

/// An observable resource still held by the handle: the native window or
/// the attached control.
pub open spec fn has_live_resources(m: WebViewModel) -> bool {
    m.window_alive || m.control.initialized
}

/// The bytes of `about:blank`, the neutral location the control is pointed
/// at before inline content is written.
pub open spec fn about_blank() -> Seq<u8> {
    seq![0x61u8, 0x62u8, 0x6fu8, 0x75u8, 0x74u8, 0x3au8, 0x62u8, 0x6cu8, 0x61u8, 0x6eu8, 0x6bu8]
}

/// What `create` builds, as a function of its inputs. Construction fails —
/// and no handle exists at all — when the environment adjustment or the
/// native control failed, or when the title, the URL, or the decoded inline
/// payload is not valid UTF-8. An inline-content URL routes to one
/// navigation to `about:blank` followed by one write of the percent-decoded
/// payload; any other URL routes to exactly one navigation and no write.
pub open spec fn create_model(
    title: Seq<u8>,
    url: Seq<u8>,
    callback: usize,
    userdata: usize,
    startup: HostStartup,
) -> Option<WebViewModel> {
    if !startup.env_adjusted || !valid_utf8(title) || !valid_utf8(url) || !startup.control_created {
        None
    } else if is_inline_url(url) && !valid_utf8(inline_payload(url)) {
        None
    } else {
        let events = if is_inline_url(url) {
            seq![EventModel::Navigated(about_blank()), EventModel::Wrote(inline_payload(url))]
        } else {
            seq![EventModel::Navigated(url)]
        };
        Some(
            WebViewModel {
                control: ControlModel { initialized: true, events, callback_set: true },
                pending: Seq::empty(),
                enqueued: Seq::empty(),
                executed: Seq::empty(),
                window_alive: true,
                callback,
                userdata,
                state: LifeState::Created,
                invocations: Seq::empty(),
            },
        )
    }
}

/// What `exit` leaves behind: the native window is destroyed and the
/// control released; the handle's memory, histories and user data remain
/// until `free`.
pub open spec fn exit_model(m: WebViewModel) -> WebViewModel {
    WebViewModel {
        control: ControlModel {
            initialized: false,
            callback_set: false,
            events: m.control.events,
        },
        window_alive: false,
        state: LifeState::Exited,
        ..m
    }
}

/// What one script-to-host call produces: the invocation handed to the
/// host, and the handle with that invocation appended to its history.
pub open spec fn invoke_model(m: WebViewModel, payload: Seq<u8>) -> (WebViewModel, InvocationModel) {
    let inv = InvocationModel { callback: m.callback, payload, userdata: m.userdata };
    (WebViewModel { invocations: m.invocations.push(inv), ..m }, inv)
}

/// The opaque handle: one native window, one embedded control, the UI
/// thread's message queue, the registered external callback and the host's
/// user data. Never copied; ownership passes to the host at creation and
/// returns at `free`.
pub struct WebView {
    control: ControlHost,
    queue: DispatchQueue,
    window_alive: bool,
    callback: usize,
    userdata: usize,
    state: LifeState,
    invocations: Ghost<Seq<InvocationModel>>,
}

impl View for WebView {
    type V = WebViewModel;

    closed spec fn view(&self) -> WebViewModel {
        WebViewModel {
            control: self.control@,
            pending: self.queue.pending(),
            enqueued: self.queue.enqueued(),
            executed: self.queue.executed(),
            window_alive: self.window_alive,
            callback: self.callback,
            userdata: self.userdata,
            state: self.state,
            invocations: self.invocations@,
        }
    }
}

impl WebView {
    /// The handle's well-formedness: its queue's delivery invariant holds,
    /// and while the handle is live its control is attached.
    pub closed spec fn wf(&self) -> bool {
        &&& self.queue.wf()
        &&& self.state == LifeState::Created ==> self.control@.initialized
    }

    /// Builds a handle whole or not at all: validates the texts, applies
    /// the startup facts, attaches the control, routes the URL, and
    /// registers the host-callback last, once the handle is final. The
    /// geometry is consumed by the native window and control; the debug
    /// flag is the host's.
    pub fn create(
        title: Vec<u8>,
        url: Vec<u8>,
        geometry: Geometry,
        debug: bool,
        callback: usize,
        userdata: usize,
        startup: HostStartup,
    ) -> (r: Option<WebView>)
        ensures
            match r {
                Option::Some(wv) => wv.wf() && create_model(
                    title@,
                    url@,
                    callback,
                    userdata,
                    startup,
                ) == Some(wv@),
                Option::None => create_model(title@, url@, callback, userdata, startup) is None,
            },
    {
        if !startup.env_adjusted {
            return None;
        }
        if !is_valid_utf8_bytes(&title) {
            return None;
        }
        if !is_valid_utf8_bytes(&url) {
            return None;
        }
        if !startup.control_created {
            return None;
        }
        let ghost url_bytes = url@;
        let mut control = ControlHost::new();
        control.initialize(geometry);
        if has_inline_prefix(&url) {
            let tail = bytes_from(&url, 15);
            let content = percent_decode_bytes(&tail);
            proof {
                assert(content@ == inline_payload(url_bytes));
            }
            if !is_valid_utf8_bytes(&content) {
                return None;
            }
            let about: Vec<u8> = vec![
                0x61u8, 0x62u8, 0x6fu8, 0x75u8, 0x74u8, 0x3au8, 0x62u8, 0x6cu8, 0x61u8, 0x6eu8,
                0x6bu8,
            ];
            proof {
                assert(about@ =~= about_blank());
            }
            control.navigate(about);
            control.write(content);
            proof {
                assert(control@.events =~= seq![
                    EventModel::Navigated(about_blank()),
                    EventModel::Wrote(inline_payload(url_bytes)),
                ]);
            }
        } else {
            control.navigate(url);
            proof {
                assert(control@.events =~= seq![EventModel::Navigated(url_bytes)]);
            }
        }
        control.set_callback();
        let wv = WebView {
            control,
            queue: DispatchQueue::new(),
            window_alive: true,
            callback,
            userdata,
            state: LifeState::Created,
            invocations: Ghost(Seq::empty()),
        };
        proof {
            assert(Some(wv@) =~= create_model(title@, url_bytes, callback, userdata, startup));
        }
        Some(wv)
    }

    /// The host's opaque user-data pointer value, exactly as supplied to
    /// `create`; reading it never changes the handle, so any number of
    /// calls return the same value.
    pub fn get_user_data(&self) -> (r: usize)
        ensures
            r == self@.userdata,
    {
        self.userdata
    }

    /// Requests execution of a script fragment. A fragment that is not
    /// valid UTF-8 is fatal to this call alone: it is rejected whole and
    /// the handle is unchanged.
    pub fn eval(&mut self, script: Vec<u8>) -> (r: EvalStatus)
        requires
            old(self).wf(),
            old(self)@.state == LifeState::Created,
        ensures
            final(self).wf(),
            valid_utf8(script@) ==> r == EvalStatus::Accepted && final(self)@ == (WebViewModel {
                control: ControlModel {
                    events: old(self)@.control.events.push(EventModel::Evaluated(script@)),
                    ..old(self)@.control
                },
                ..old(self)@
            }),
            !valid_utf8(script@) ==> r == EvalStatus::InvalidText && final(self)@ == old(self)@,
    {
        if !is_valid_utf8_bytes(&script) {
            return EvalStatus::InvalidText;
        }
        let ghost s = script@;
        self.control.eval(script);
        proof {
            assert(final(self)@ =~= WebViewModel {
                control: ControlModel {
                    events: old(self)@.control.events.push(EventModel::Evaluated(s)),
                    ..old(self)@.control
                },
                ..old(self)@
            });
        }
        EvalStatus::Accepted
    }

    /// Accepts a task from any thread for execution on the UI thread; never
    /// blocks and never runs the task itself. Ownership of the task record
    /// passes to the queue when it is posted.
    pub fn enqueue(&mut self, task: Task)
        requires
            old(self).wf(),
            old(self)@.state == LifeState::Created,
        ensures
            final(self).wf(),
            final(self)@ == (WebViewModel {
                pending: old(self)@.pending.push(QueueMessage::Dispatch(task)),
                enqueued: old(self)@.enqueued.push(task),
                ..old(self)@
            }),
    {
        self.queue.enqueue(task);
        proof {
            assert(final(self)@ =~= WebViewModel {
                pending: old(self)@.pending.push(QueueMessage::Dispatch(task)),
                enqueued: old(self)@.enqueued.push(task),
                ..old(self)@
            });
        }
    }

    /// Posts a native windowing event, as the operating system does.
    pub fn post_native(&mut self, event: u64)
        requires
            old(self).wf(),
            old(self)@.state == LifeState::Created,
        ensures
            final(self).wf(),
            final(self)@ == (WebViewModel {
                pending: old(self)@.pending.push(QueueMessage::Native(event)),
                ..old(self)@
            }),
    {
        self.queue.post_native(event);
        proof {
            assert(final(self)@ =~= WebViewModel {
                pending: old(self)@.pending.push(QueueMessage::Native(event)),
                ..old(self)@
            });
        }
    }

    /// Posts the termination signal.
    pub fn post_quit(&mut self)
        requires
            old(self).wf(),
            old(self)@.state == LifeState::Created,
        ensures
            final(self).wf(),
            final(self)@ == (WebViewModel {
                pending: old(self)@.pending.push(QueueMessage::Quit),
                ..old(self)@
            }),
    {
        self.queue.post_quit();
        proof {
            assert(final(self)@ =~= WebViewModel {
                pending: old(self)@.pending.push(QueueMessage::Quit),
                ..old(self)@
            });
        }
    }

    /// Takes one step of the message loop: processes at most one message,
    /// oldest first, with no filtering and no reordering; a dispatched task
    /// is handed back for the host to invoke exactly once. On an empty
    /// queue the non-blocking poll reports `NoEvent` at once and changes
    /// nothing; in blocking mode the wait for a message is the host's, so
    /// the host calls this only once a message is available.
    pub fn run_step(&mut self, blocking: bool) -> (r: (LoopSignal, Option<Task>))
        requires
            old(self).wf(),
            old(self)@.state == LifeState::Created,
            blocking ==> old(self)@.pending.len() > 0,
        ensures
            final(self).wf(),
            old(self)@.pending.len() == 0 ==> r == (LoopSignal::NoEvent, Option::<Task>::None)
                && final(self)@ == old(self)@,
            old(self)@.pending.len() > 0 ==> (match old(self)@.pending[0] {
                QueueMessage::Quit => r == (LoopSignal::QuitRequested, Option::<Task>::None)
                    && final(self)@ == (WebViewModel {
                    pending: old(self)@.pending.skip(1),
                    ..old(self)@
                }),
                QueueMessage::Native(_) => r == (LoopSignal::KeepRunning, Option::<Task>::None)
                    && final(self)@ == (WebViewModel {
                    pending: old(self)@.pending.skip(1),
                    ..old(self)@
                }),
                QueueMessage::Dispatch(t) => r == (LoopSignal::KeepRunning, Option::Some(t))
                    && final(self)@ == (WebViewModel {
                    pending: old(self)@.pending.skip(1),
                    executed: old(self)@.executed.push(t),
                    ..old(self)@
                }),
            }),
    {
        let r = self.queue.step(blocking);
        proof {
            if old(self)@.pending.len() == 0 {
                assert(final(self)@ =~= old(self)@);
            } else {
                match old(self)@.pending[0] {
                    QueueMessage::Dispatch(t) => {
                        assert(final(self)@ =~= WebViewModel {
                            pending: old(self)@.pending.skip(1),
                            executed: old(self)@.executed.push(t),
                            ..old(self)@
                        });
                    },
                    _ => {
                        assert(final(self)@ =~= WebViewModel {
                            pending: old(self)@.pending.skip(1),
                            ..old(self)@
                        });
                    },
                }
            }
        }
        r
    }

    /// Marshals a script-to-host call out to the host: hands back exactly
    /// one invocation carrying the registered callback, the payload byte
    /// for byte, and the user data unchanged. A payload with an interior
    /// NUL byte cannot cross the flat boundary; that call fails whole and
    /// the handle is unchanged.
    pub fn script_invoke(&mut self, payload: Vec<u8>) -> (r: Option<Invocation>)
        requires
            old(self).wf(),
            old(self)@.state == LifeState::Created,
            old(self)@.control.callback_set,
        ensures
            final(self).wf(),
            match r {
                Option::Some(inv) => !payload@.contains(0u8) && (final(self)@, inv@)
                    == invoke_model(old(self)@, payload@),
                Option::None => payload@.contains(0u8) && final(self)@ == old(self)@,
            },
    {
        let n = payload.len();
        let mut i: usize = 0;
        while i < n
            invariant
                n == payload@.len(),
                0 <= i <= n,
                forall|j: int| 0 <= j < i ==> payload@[j] != 0u8,
                *self == *old(self),
                old(self).wf(),
            decreases n - i,
        {
            if payload[i] == 0 {
                return None;
            }
            i += 1;
        }
        proof {
            assert(!payload@.contains(0u8));
        }
        let inv = Invocation { callback: self.callback, payload, userdata: self.userdata };
        proof {
            self.invocations@ = self.invocations@.push(inv@);
            assert(final(self)@ =~= invoke_model(old(self)@, inv@.payload).0);
        }
        Some(inv)
    }

    /// Tears down the native window and releases the engine's resources.
    /// The handle's own memory is untouched; `free` releases it.
    pub fn exit(&mut self)
        requires
            old(self).wf(),
            old(self)@.state == LifeState::Created,
        ensures
            final(self).wf(),
            final(self)@ == exit_model(old(self)@),
    {
        self.control.release();
        self.window_alive = false;
        self.state = LifeState::Exited;
        proof {
            assert(final(self)@ =~= exit_model(old(self)@));
        }
    }

    /// Releases the handle itself by consuming it. It must be called after
    /// `exit`, and ownership makes a second call, or any later use of the
    /// handle, impossible.
    pub fn free(self)
        requires
            self@.state == LifeState::Exited,
    {
    }

    /// The requests the control has received, oldest first.
    pub fn events(&self) -> (r: &Vec<crate::control::ControlEvent>)
        ensures
            r@.map(|i: int, e: crate::control::ControlEvent| e@) == self@.control.events,
    {
        self.control.events()
    }

    /// Whether an observable resource — the native window or the attached
    /// control — is still alive.
    pub fn is_alive(&self) -> (r: bool)
        ensures
            r == has_live_resources(self@),
    {
        self.window_alive || self.control.is_initialized()
    }
}

/// Law: creation and teardown leave nothing behind. For every input that
/// `create` accepts, the handle it returns holds a live window and control,
/// and `exit` leaves no observable resource alive.
pub proof fn lemma_create_exit_releases_everything(
    title: Seq<u8>,
    url: Seq<u8>,
    callback: usize,
    userdata: usize,
    startup: HostStartup,
)
    requires
        create_model(title, url, callback, userdata, startup) is Some,
    ensures
        has_live_resources(create_model(title, url, callback, userdata, startup)->Some_0),
        !has_live_resources(exit_model(create_model(title, url, callback, userdata, startup)->Some_0)),
{
}

/// Law: URL routing. A handle returned by `create` has received exactly one
/// navigation and nothing else — to the URL itself, unchanged, when the URL
/// is not inline-content; and to `about:blank` followed by exactly one
/// write of the percent-decoded payload when it is. The raw inline URL is
/// never navigated to.
pub proof fn lemma_url_routing(
    title: Seq<u8>,
    url: Seq<u8>,
    callback: usize,
    userdata: usize,
    startup: HostStartup,
)
    requires
        create_model(title, url, callback, userdata, startup) is Some,
    ensures
        !is_inline_url(url) ==> (create_model(title, url, callback, userdata, startup)->Some_0)
            .control.events == seq![EventModel::Navigated(url)],
        is_inline_url(url) ==> (create_model(title, url, callback, userdata, startup)->Some_0)
            .control.events == seq![
            EventModel::Navigated(about_blank()),
            EventModel::Wrote(inline_payload(url)),
        ],
        is_inline_url(url) ==> !(create_model(title, url, callback, userdata, startup)->Some_0)
            .control.events.contains(EventModel::Navigated(url)),
{
    if is_inline_url(url) {
        let events = (create_model(title, url, callback, userdata, startup)->Some_0).control.events;
        assert(url.len() >= 15 && about_blank().len() == 11);
        assert forall|i: int| 0 <= i < events.len() implies events[i] != EventModel::Navigated(
            url,
        ) by {
            if i == 0 {
                assert(events[0] == EventModel::Navigated(about_blank()));
            }
        }
        assert(!events.contains(EventModel::Navigated(url)));
    }
}

/// Law: the user-data pointer is fixed at creation. A handle built by
/// `create` holds exactly the value the host supplied, and neither teardown
/// nor any script-to-host call changes it, so `get_user_data` returns the
/// same value each time.
pub proof fn lemma_user_data_constant(
    m: WebViewModel,
    payload: Seq<u8>,
    title: Seq<u8>,
    url: Seq<u8>,
    callback: usize,
    userdata: usize,
    startup: HostStartup,
)
    ensures
        create_model(title, url, callback, userdata, startup) is Some ==> (create_model(
            title,
            url,
            callback,
            userdata,
            startup,
        )->Some_0).userdata == userdata,
        exit_model(m).userdata == m.userdata,
        invoke_model(m, payload).0.userdata == m.userdata,
        invoke_model(m, payload).1.userdata == m.userdata,
{
}

/// Law: callback round trip. With a callback registered, a script-to-host
/// call hands the host exactly one new invocation, carrying the registered
/// callback, the payload byte for byte, and the handle's user data.
pub proof fn lemma_callback_round_trip(m: WebViewModel, payload: Seq<u8>)
    ensures
        invoke_model(m, payload).0.invocations == m.invocations.push(invoke_model(m, payload).1),
        invoke_model(m, payload).1 == (InvocationModel {
            callback: m.callback,
            payload,
            userdata: m.userdata,
        }),
{
}

} // verus!

use vstd::prelude::*;

verus! {

/// Id of the Cmd+B hotkey within its signature.
pub const CMD_B_HOTKEY_ID: u32 = 1;

/// Signature of the application's hotkeys: the four-character code "MRNY".
pub const CMD_B_HOTKEY_SIGNATURE: u32 = 0x4D52_4E59;

/// Status of a Carbon call that succeeded.
pub const NO_ERR: i32 = 0;

/// Carbon event class of keyboard events: the four-character code "keyb".
pub const K_EVENT_CLASS_KEYBOARD: u32 = 0x6B65_7962;

/// Carbon event kind of a pressed hotkey.
pub const K_EVENT_HOT_KEY_PRESSED: u32 = 5;

/// Carbon parameter name of an event's direct object: the code "----".
pub const K_EVENT_PARAM_DIRECT_OBJECT: u32 = 0x2D2D_2D2D;

/// Carbon parameter type of a hotkey id: the four-character code "hkid".
pub const TYPE_EVENT_HOT_KEY_ID: u32 = 0x686B_6964;

/// Carbon hotkey registration without options.
pub const K_EVENT_HOT_KEY_NO_OPTIONS: u32 = 0;

/// Carbon modifier mask of the Command key (bit 8).
pub const CMD_KEY_MASK: u32 = 0x100;

/// Virtual key code of the B key.
pub const KEY_CODE_B: u32 = 0x0B;

/// The 32-bit code whose big-endian bytes are the four characters.
pub open spec fn four_char_code(a: char, b: char, c: char, d: char) -> int {
    (a as int) * 0x100_0000 + (b as int) * 0x1_0000 + (c as int) * 0x100 + (d as int)
}

/// The Carbon codes are the four-character codes they are named after.
pub proof fn lemma_four_char_codes()
    ensures
        CMD_B_HOTKEY_SIGNATURE == four_char_code('M', 'R', 'N', 'Y'),
        K_EVENT_CLASS_KEYBOARD == four_char_code('k', 'e', 'y', 'b'),
        K_EVENT_PARAM_DIRECT_OBJECT == four_char_code('-', '-', '-', '-'),
        TYPE_EVENT_HOT_KEY_ID == four_char_code('h', 'k', 'i', 'd'),
{
}

/// A hotkey's id as Carbon reports it.
#[derive(Debug, Clone, Copy, PartialEq, Eq, Structural)]
pub struct HotKeyId {
    pub signature: u32,
    pub id: u32,
}

/// Whether a hotkey event is the application's Cmd+B: the id could be read
/// from the event, it is ours, and the handler has its context to call.
pub fn is_cmd_b_hotkey_event(read_status: i32, hot_key: HotKeyId, has_context: bool) -> (r: bool)
    ensures
        r == (read_status == NO_ERR && hot_key.signature == CMD_B_HOTKEY_SIGNATURE && hot_key.id
            == CMD_B_HOTKEY_ID && has_context),
{
    read_status == NO_ERR && hot_key.signature == CMD_B_HOTKEY_SIGNATURE && hot_key.id
        == CMD_B_HOTKEY_ID && has_context
}

/// Why the Cmd+B shortcut could not be registered, with the Carbon status.
#[derive(Debug, Clone, Copy, PartialEq, Eq, Structural)]
pub enum ShortcutError {
    /// Installing the hotkey event handler failed.
    InstallHandler(i32),
    /// Registering the hotkey failed.
    RegisterHotKey(i32),
}

/// Where the registration of the shortcut stands.
#[derive(Debug, Clone, Copy, PartialEq, Eq, Structural)]
pub enum RegistrationState {
    /// Nothing asked yet.
    Idle,
    /// Waiting for the handler installation's status.
    Installing,
    /// The handler is installed; waiting for the hotkey registration's status.
    Registering,
    /// The shortcut is registered.
    Registered,
    /// The registration failed and what it had set up was undone.
    Failed(ShortcutError),
}

/// What the application reports to the registration.
#[derive(Debug, Clone, Copy, PartialEq, Eq, Structural)]
pub enum RegistrationEvent {
    /// Registration was asked for; says whether it was done before.
    Requested { already_registered: bool },
    /// Status of the handler installation.
    HandlerInstalled { status: i32 },
    /// Status of the hotkey registration.
    HotKeyRegistered { status: i32 },
}

/// A step of the registration that the application performs.
#[derive(Debug, Clone, Copy, PartialEq, Eq, Structural)]
pub enum RegistrationAction {
    /// Install the application's hotkey handler for this event class and kind.
    InstallHandler { event_class: u32, event_kind: u32 },
    /// Register the hotkey.
    RegisterHotKey { key_code: u32, modifiers: u32, signature: u32, id: u32, options: u32 },
    /// Remove the installed handler.
    RemoveHandler,
    /// Free the callback context handed to the handler.
    ReleaseContext,
    /// Keep the handler, hotkey and context for the rest of the process.
    KeepRegistration,
}

/// The handler installation that the registration asks for.
pub open spec fn install_handler_action() -> RegistrationAction {
    RegistrationAction::InstallHandler {
        event_class: K_EVENT_CLASS_KEYBOARD,
        event_kind: K_EVENT_HOT_KEY_PRESSED,
    }
}

/// The hotkey registration that the registration asks for: Cmd+B, with the
/// application's signature and id.
pub open spec fn register_hot_key_action() -> RegistrationAction {
    RegistrationAction::RegisterHotKey {
        key_code: KEY_CODE_B,
        modifiers: CMD_KEY_MASK,
        signature: CMD_B_HOTKEY_SIGNATURE,
        id: CMD_B_HOTKEY_ID,
        options: K_EVENT_HOT_KEY_NO_OPTIONS,
    }
}

/// The next state of the registration and the steps to perform. A second
/// request does nothing; a failed installation frees the context; a failed
/// hotkey registration removes the handler, then frees the context. An
/// event that does not fit the state changes nothing.
pub open spec fn registration_next(state: RegistrationState, event: RegistrationEvent) -> (
    RegistrationState,
    Seq<RegistrationAction>,
) {
    match (state, event) {
        (RegistrationState::Idle, RegistrationEvent::Requested { already_registered }) => {
            if already_registered {
                (RegistrationState::Registered, seq![])
            } else {
                (RegistrationState::Installing, seq![install_handler_action()])
            }
        },
        (RegistrationState::Installing, RegistrationEvent::HandlerInstalled { status }) => {
            if status == NO_ERR {
                (RegistrationState::Registering, seq![register_hot_key_action()])
            } else {
                (
                    RegistrationState::Failed(ShortcutError::InstallHandler(status)),
                    seq![RegistrationAction::ReleaseContext],
                )
            }
        },
        (RegistrationState::Registering, RegistrationEvent::HotKeyRegistered { status }) => {
            if status == NO_ERR {
                (RegistrationState::Registered, seq![RegistrationAction::KeepRegistration])
            } else {
                (
                    RegistrationState::Failed(ShortcutError::RegisterHotKey(status)),
                    seq![RegistrationAction::RemoveHandler, RegistrationAction::ReleaseContext],
                )
            }
        },
        _ => (state, seq![]),
    }
}

/// Performs one transition of the registration.
pub fn registration_step(state: RegistrationState, event: RegistrationEvent) -> (r: (
    RegistrationState,
    Vec<RegistrationAction>,
))
    ensures
        (r.0, r.1@) == registration_next(state, event),
{
    let mut actions: Vec<RegistrationAction> = Vec::new();
    let next = match (state, event) {
        (RegistrationState::Idle, RegistrationEvent::Requested { already_registered }) => {
            if already_registered {
                RegistrationState::Registered
            } else {
                actions.push(
                    RegistrationAction::InstallHandler {
                        event_class: K_EVENT_CLASS_KEYBOARD,
                        event_kind: K_EVENT_HOT_KEY_PRESSED,
                    },
                );
                RegistrationState::Installing
            }
        },
        (RegistrationState::Installing, RegistrationEvent::HandlerInstalled { status }) => {
            if status == NO_ERR {
                actions.push(
                    RegistrationAction::RegisterHotKey {
                        key_code: KEY_CODE_B,
                        modifiers: CMD_KEY_MASK,
                        signature: CMD_B_HOTKEY_SIGNATURE,
                        id: CMD_B_HOTKEY_ID,
                        options: K_EVENT_HOT_KEY_NO_OPTIONS,
                    },
                );
                RegistrationState::Registering
            } else {
                actions.push(RegistrationAction::ReleaseContext);
                RegistrationState::Failed(ShortcutError::InstallHandler(status))
            }
        },
        (RegistrationState::Registering, RegistrationEvent::HotKeyRegistered { status }) => {
            if status == NO_ERR {
                actions.push(RegistrationAction::KeepRegistration);
                RegistrationState::Registered
            } else {
                actions.push(RegistrationAction::RemoveHandler);
                actions.push(RegistrationAction::ReleaseContext);
                RegistrationState::Failed(ShortcutError::RegisterHotKey(status))
            }
        },
        _ => state,
    };
    let ghost expected = registration_next(state, event);
    assert(actions@ =~= expected.1);
    (next, actions)
}

/// The outcome of a finished registration, `None` while it is under way.
pub open spec fn registration_outcome(state: RegistrationState) -> Option<Result<(), ShortcutError>> {
    match state {
        RegistrationState::Registered => Some(Ok(())),
        RegistrationState::Failed(e) => Some(Err(e)),
        _ => None,
    }
}

/// The outcome of a finished registration, `None` while it is under way.
pub fn registration_result(state: RegistrationState) -> (r: Option<Result<(), ShortcutError>>)
    ensures
        r == registration_outcome(state),
        r == Some(Ok::<(), ShortcutError>(())) <==> state == RegistrationState::Registered,
        forall|e: ShortcutError| r == Some(Err::<(), ShortcutError>(e)) <==> state
            == RegistrationState::Failed(e),
        r is None <==> (state == RegistrationState::Idle || state == RegistrationState::Installing
            || state == RegistrationState::Registering),
{
    match state {
        RegistrationState::Registered => Some(Ok(())),
        RegistrationState::Failed(e) => Some(Err(e)),
        _ => None,
    }
}

/// Asking again once the shortcut is registered succeeds at once and does
/// nothing.
pub proof fn lemma_registration_is_idempotent()
    ensures
        registration_next(RegistrationState::Idle, RegistrationEvent::Requested { already_registered: true })
            == (RegistrationState::Registered, Seq::<RegistrationAction>::empty()),
        registration_outcome(RegistrationState::Registered) == Some(Ok::<(), ShortcutError>(())),
{
    assert(registration_next(
        RegistrationState::Idle,
        RegistrationEvent::Requested { already_registered: true },
    ).1 =~= Seq::<RegistrationAction>::empty());
}

/// A registration whose two Carbon calls succeed installs the keyboard
/// hotkey handler, registers Cmd+B under the application's signature and
/// id, keeps both, and ends registered.
pub proof fn lemma_registration_success_path()
    ensures
        ({
            let s1 = registration_next(
                RegistrationState::Idle,
                RegistrationEvent::Requested { already_registered: false },
            );
            let s2 = registration_next(s1.0, RegistrationEvent::HandlerInstalled { status: NO_ERR });
            let s3 = registration_next(s2.0, RegistrationEvent::HotKeyRegistered { status: NO_ERR });
            &&& s1.1 + s2.1 + s3.1 == seq![
                install_handler_action(),
                register_hot_key_action(),
                RegistrationAction::KeepRegistration,
            ]
            &&& registration_outcome(s3.0) == Some(Ok::<(), ShortcutError>(()))
        }),
{
    let s1 = registration_next(
        RegistrationState::Idle,
        RegistrationEvent::Requested { already_registered: false },
    );
    let s2 = registration_next(s1.0, RegistrationEvent::HandlerInstalled { status: NO_ERR });
    let s3 = registration_next(s2.0, RegistrationEvent::HotKeyRegistered { status: NO_ERR });
    assert(s1.1 + s2.1 + s3.1 =~= seq![
        install_handler_action(),
        register_hot_key_action(),
        RegistrationAction::KeepRegistration,
    ]);
}

/// A failure leaves nothing behind: every transition into failure frees the
/// context, after removing the handler when the handler was installed, and
/// the failure carries the status that the failing call returned.
pub proof fn lemma_registration_failure_cleans_up(state: RegistrationState, event: RegistrationEvent)
    requires
        !(state is Failed),
        registration_next(state, event).0 is Failed,
    ensures
        ({
            let (next, actions) = registration_next(state, event);
            &&& actions.last() == RegistrationAction::ReleaseContext
            &&& state == RegistrationState::Registering ==> actions == seq![
                RegistrationAction::RemoveHandler,
                RegistrationAction::ReleaseContext,
            ]
            &&& event matches RegistrationEvent::HandlerInstalled { status } ==> next
                == RegistrationState::Failed(ShortcutError::InstallHandler(status)) && status
                != NO_ERR
            &&& event matches RegistrationEvent::HotKeyRegistered { status } ==> next
                == RegistrationState::Failed(ShortcutError::RegisterHotKey(status)) && status
                != NO_ERR
        }),
{
}

/// A registration reports success only once the hotkey itself is
/// registered, reports a failure exactly when it failed (with that error),
/// and reports nothing while it is idle, installing the handler, or has the
/// handler installed but the hotkey not yet registered.
pub proof fn lemma_registration_outcome_only_when_finished(state: RegistrationState)
    ensures
        registration_outcome(state) == Some(Ok::<(), ShortcutError>(())) <==> state
            == RegistrationState::Registered,
        forall|e: ShortcutError|
            registration_outcome(state) == Some(Err::<(), ShortcutError>(e)) <==> state
                == RegistrationState::Failed(e),
        registration_outcome(state) is None <==> (state == RegistrationState::Idle || state
            == RegistrationState::Installing || state == RegistrationState::Registering),
{
}

/// Success is reported only after both Carbon calls succeeded: from a fresh
/// start, the registration is under way after the request and after the
/// handler installation, whatever their statuses that do not fail it, and it
/// is registered only after the hotkey registration returned no error.
pub proof fn lemma_success_needs_hot_key_registration(install_status: i32, register_status: i32)
    ensures
        ({
            let s1 = registration_next(
                RegistrationState::Idle,
                RegistrationEvent::Requested { already_registered: false },
            ).0;
            let s2 = registration_next(
                s1,
                RegistrationEvent::HandlerInstalled { status: install_status },
            ).0;
            let s3 = registration_next(
                s2,
                RegistrationEvent::HotKeyRegistered { status: register_status },
            ).0;
            &&& registration_outcome(s1) is None
            &&& install_status == 0 ==> registration_outcome(s2) is None
            &&& install_status != 0 ==> registration_outcome(s2) == Some(
                Err::<(), ShortcutError>(ShortcutError::InstallHandler(install_status)),
            )
            &&& (registration_outcome(s3) == Some(Ok::<(), ShortcutError>(()))) <==> (install_status
                == 0 && register_status == 0)
        }),
{
}

/// A failed handler installation only frees the context: there is no handler
/// to remove. An event that does not fit the state changes nothing.
pub proof fn lemma_install_failure_and_stray_events(state: RegistrationState, event: RegistrationEvent)
    ensures
        state == RegistrationState::Installing && event is HandlerInstalled && event->HandlerInstalled_status != 0
            ==> registration_next(state, event).1 == seq![RegistrationAction::ReleaseContext],
        !(state == RegistrationState::Idle && event is Requested) && !(state
            == RegistrationState::Installing && event is HandlerInstalled) && !(state
            == RegistrationState::Registering && event is HotKeyRegistered) ==> registration_next(
            state,
            event,
        ) == (state, Seq::<RegistrationAction>::empty()),
{
    if state == RegistrationState::Installing && event is HandlerInstalled {
        assert(registration_next(state, event).1 =~= registration_next(state, event).1);
    }
    if !(state == RegistrationState::Idle && event is Requested) && !(state
        == RegistrationState::Installing && event is HandlerInstalled) && !(state
        == RegistrationState::Registering && event is HotKeyRegistered) {
        assert(registration_next(state, event).1 =~= Seq::<RegistrationAction>::empty());
    }
}

/// The registration installs a handler for pressed-hotkey events of the
/// keyboard class ("keyb", kind 5), then registers key code 0x0B (B) with
/// the Command modifier (bit 8), no options, the signature "MRNY" and id 1;
/// these are the signature and id that `is_cmd_b_hotkey_event` accepts.
pub proof fn lemma_registration_requests()
    ensures
        install_handler_action() == (RegistrationAction::InstallHandler {
            event_class: four_char_code('k', 'e', 'y', 'b') as u32,
            event_kind: 5,
        }),
        register_hot_key_action() == (RegistrationAction::RegisterHotKey {
            key_code: 0x0B,
            modifiers: 0x100,
            signature: four_char_code('M', 'R', 'N', 'Y') as u32,
            id: 1,
            options: 0,
        }),
        register_hot_key_action() matches RegistrationAction::RegisterHotKey { signature, id, .. }
            && signature == CMD_B_HOTKEY_SIGNATURE && id == CMD_B_HOTKEY_ID,
{
}

} // verus!

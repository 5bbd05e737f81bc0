//! What holds of the keyboard, the settings, the updates and the window.
use crate::addr::IpAddr;
use crate::keys;
use crate::keys::{KeyboardKey, LocalKey, Modifiers};
use crate::settings;
use crate::settings::Renderer;
use crate::text;
use crate::updates::{CheckOutcome, ReleaseInfo, UpdateUiState, UpdateWorkerEvent};
use crate::window;
use crate::time::Instant;
use vstd::prelude::*;
use vstd::string::*;

verus! {

/// The keys are numbered one after the other, from Escape to the modifiers.
pub proof fn keys_are_numbered_in_order()
    ensures
        keys::key_index(KeyboardKey::Escape) == 0,
        keys::key_index(KeyboardKey::Tab) == keys::key_index(KeyboardKey::Escape) + 1,
        keys::key_index(KeyboardKey::Backspace) == keys::key_index(KeyboardKey::Tab) + 1,
        keys::key_index(KeyboardKey::Enter) == keys::key_index(KeyboardKey::Backspace) + 1,
        keys::key_index(KeyboardKey::Space) == keys::key_index(KeyboardKey::Enter) + 1,
        keys::key_index(KeyboardKey::Insert) == keys::key_index(KeyboardKey::Space) + 1,
        keys::key_index(KeyboardKey::Delete) == keys::key_index(KeyboardKey::Insert) + 1,
        keys::key_index(KeyboardKey::Home) == keys::key_index(KeyboardKey::Delete) + 1,
        keys::key_index(KeyboardKey::End) == keys::key_index(KeyboardKey::Home) + 1,
        keys::key_index(KeyboardKey::PageUp) == keys::key_index(KeyboardKey::End) + 1,
        keys::key_index(KeyboardKey::PageDown) == keys::key_index(KeyboardKey::PageUp) + 1,
        keys::key_index(KeyboardKey::ArrowUp) == keys::key_index(KeyboardKey::PageDown) + 1,
        keys::key_index(KeyboardKey::ArrowDown) == keys::key_index(KeyboardKey::ArrowUp) + 1,
        keys::key_index(KeyboardKey::ArrowLeft) == keys::key_index(KeyboardKey::ArrowDown) + 1,
        keys::key_index(KeyboardKey::ArrowRight) == keys::key_index(KeyboardKey::ArrowLeft) + 1,
        keys::key_index(KeyboardKey::Minus) == keys::key_index(KeyboardKey::ArrowRight) + 1,
        keys::key_index(KeyboardKey::Equals) == keys::key_index(KeyboardKey::Minus) + 1,
        keys::key_index(KeyboardKey::OpenBracket) == keys::key_index(KeyboardKey::Equals) + 1,
        keys::key_index(KeyboardKey::CloseBracket) == keys::key_index(KeyboardKey::OpenBracket) + 1,
        keys::key_index(KeyboardKey::Backslash) == keys::key_index(KeyboardKey::CloseBracket) + 1,
        keys::key_index(KeyboardKey::Semicolon) == keys::key_index(KeyboardKey::Backslash) + 1,
        keys::key_index(KeyboardKey::Quote) == keys::key_index(KeyboardKey::Semicolon) + 1,
        keys::key_index(KeyboardKey::Backtick) == keys::key_index(KeyboardKey::Quote) + 1,
        keys::key_index(KeyboardKey::Comma) == keys::key_index(KeyboardKey::Backtick) + 1,
        keys::key_index(KeyboardKey::Period) == keys::key_index(KeyboardKey::Comma) + 1,
        keys::key_index(KeyboardKey::Slash) == keys::key_index(KeyboardKey::Period) + 1,
        keys::key_index(KeyboardKey::Num0) == keys::key_index(KeyboardKey::Slash) + 1,
        keys::key_index(KeyboardKey::Num1) == keys::key_index(KeyboardKey::Num0) + 1,
        keys::key_index(KeyboardKey::Num2) == keys::key_index(KeyboardKey::Num1) + 1,
        keys::key_index(KeyboardKey::Num3) == keys::key_index(KeyboardKey::Num2) + 1,
        keys::key_index(KeyboardKey::Num4) == keys::key_index(KeyboardKey::Num3) + 1,
        keys::key_index(KeyboardKey::Num5) == keys::key_index(KeyboardKey::Num4) + 1,
        keys::key_index(KeyboardKey::Num6) == keys::key_index(KeyboardKey::Num5) + 1,
        keys::key_index(KeyboardKey::Num7) == keys::key_index(KeyboardKey::Num6) + 1,
        keys::key_index(KeyboardKey::Num8) == keys::key_index(KeyboardKey::Num7) + 1,
        keys::key_index(KeyboardKey::Num9) == keys::key_index(KeyboardKey::Num8) + 1,
        keys::key_index(KeyboardKey::A) == keys::key_index(KeyboardKey::Num9) + 1,
        keys::key_index(KeyboardKey::B) == keys::key_index(KeyboardKey::A) + 1,
        keys::key_index(KeyboardKey::C) == keys::key_index(KeyboardKey::B) + 1,
        keys::key_index(KeyboardKey::D) == keys::key_index(KeyboardKey::C) + 1,
        keys::key_index(KeyboardKey::E) == keys::key_index(KeyboardKey::D) + 1,
        keys::key_index(KeyboardKey::F) == keys::key_index(KeyboardKey::E) + 1,
        keys::key_index(KeyboardKey::G) == keys::key_index(KeyboardKey::F) + 1,
        keys::key_index(KeyboardKey::H) == keys::key_index(KeyboardKey::G) + 1,
        keys::key_index(KeyboardKey::I) == keys::key_index(KeyboardKey::H) + 1,
        keys::key_index(KeyboardKey::J) == keys::key_index(KeyboardKey::I) + 1,
        keys::key_index(KeyboardKey::K) == keys::key_index(KeyboardKey::J) + 1,
        keys::key_index(KeyboardKey::L) == keys::key_index(KeyboardKey::K) + 1,
        keys::key_index(KeyboardKey::M) == keys::key_index(KeyboardKey::L) + 1,
        keys::key_index(KeyboardKey::N) == keys::key_index(KeyboardKey::M) + 1,
        keys::key_index(KeyboardKey::O) == keys::key_index(KeyboardKey::N) + 1,
        keys::key_index(KeyboardKey::P) == keys::key_index(KeyboardKey::O) + 1,
        keys::key_index(KeyboardKey::Q) == keys::key_index(KeyboardKey::P) + 1,
        keys::key_index(KeyboardKey::R) == keys::key_index(KeyboardKey::Q) + 1,
        keys::key_index(KeyboardKey::S) == keys::key_index(KeyboardKey::R) + 1,
        keys::key_index(KeyboardKey::T) == keys::key_index(KeyboardKey::S) + 1,
        keys::key_index(KeyboardKey::U) == keys::key_index(KeyboardKey::T) + 1,
        keys::key_index(KeyboardKey::V) == keys::key_index(KeyboardKey::U) + 1,
        keys::key_index(KeyboardKey::W) == keys::key_index(KeyboardKey::V) + 1,
        keys::key_index(KeyboardKey::X) == keys::key_index(KeyboardKey::W) + 1,
        keys::key_index(KeyboardKey::Y) == keys::key_index(KeyboardKey::X) + 1,
        keys::key_index(KeyboardKey::Z) == keys::key_index(KeyboardKey::Y) + 1,
        keys::key_index(KeyboardKey::F1) == keys::key_index(KeyboardKey::Z) + 1,
        keys::key_index(KeyboardKey::F2) == keys::key_index(KeyboardKey::F1) + 1,
        keys::key_index(KeyboardKey::F3) == keys::key_index(KeyboardKey::F2) + 1,
        keys::key_index(KeyboardKey::F4) == keys::key_index(KeyboardKey::F3) + 1,
        keys::key_index(KeyboardKey::F5) == keys::key_index(KeyboardKey::F4) + 1,
        keys::key_index(KeyboardKey::F6) == keys::key_index(KeyboardKey::F5) + 1,
        keys::key_index(KeyboardKey::F7) == keys::key_index(KeyboardKey::F6) + 1,
        keys::key_index(KeyboardKey::F8) == keys::key_index(KeyboardKey::F7) + 1,
        keys::key_index(KeyboardKey::F9) == keys::key_index(KeyboardKey::F8) + 1,
        keys::key_index(KeyboardKey::F10) == keys::key_index(KeyboardKey::F9) + 1,
        keys::key_index(KeyboardKey::F11) == keys::key_index(KeyboardKey::F10) + 1,
        keys::key_index(KeyboardKey::F12) == keys::key_index(KeyboardKey::F11) + 1,
        keys::key_index(KeyboardKey::Control) == keys::key_index(KeyboardKey::F12) + 1,
        keys::key_index(KeyboardKey::Shift) == keys::key_index(KeyboardKey::Control) + 1,
        keys::key_index(KeyboardKey::Alt) == keys::key_index(KeyboardKey::Shift) + 1,
        keys::key_index(KeyboardKey::Meta) == keys::key_index(KeyboardKey::Alt) + 1,
{
}

/// Each key of the window is the key of that name for the server.
pub proof fn keys_keep_their_names()
    ensures
        keys::remote_key(LocalKey::Escape) == Some(KeyboardKey::Escape),
        keys::remote_key(LocalKey::Tab) == Some(KeyboardKey::Tab),
        keys::remote_key(LocalKey::Backspace) == Some(KeyboardKey::Backspace),
        keys::remote_key(LocalKey::Enter) == Some(KeyboardKey::Enter),
        keys::remote_key(LocalKey::Space) == Some(KeyboardKey::Space),
        keys::remote_key(LocalKey::Insert) == Some(KeyboardKey::Insert),
        keys::remote_key(LocalKey::Delete) == Some(KeyboardKey::Delete),
        keys::remote_key(LocalKey::Home) == Some(KeyboardKey::Home),
        keys::remote_key(LocalKey::End) == Some(KeyboardKey::End),
        keys::remote_key(LocalKey::PageUp) == Some(KeyboardKey::PageUp),
        keys::remote_key(LocalKey::PageDown) == Some(KeyboardKey::PageDown),
        keys::remote_key(LocalKey::ArrowUp) == Some(KeyboardKey::ArrowUp),
        keys::remote_key(LocalKey::ArrowDown) == Some(KeyboardKey::ArrowDown),
        keys::remote_key(LocalKey::ArrowLeft) == Some(KeyboardKey::ArrowLeft),
        keys::remote_key(LocalKey::ArrowRight) == Some(KeyboardKey::ArrowRight),
        keys::remote_key(LocalKey::Minus) == Some(KeyboardKey::Minus),
        keys::remote_key(LocalKey::Equals) == Some(KeyboardKey::Equals),
        keys::remote_key(LocalKey::OpenBracket) == Some(KeyboardKey::OpenBracket),
        keys::remote_key(LocalKey::CloseBracket) == Some(KeyboardKey::CloseBracket),
        keys::remote_key(LocalKey::Backslash) == Some(KeyboardKey::Backslash),
        keys::remote_key(LocalKey::Semicolon) == Some(KeyboardKey::Semicolon),
        keys::remote_key(LocalKey::Quote) == Some(KeyboardKey::Quote),
        keys::remote_key(LocalKey::Backtick) == Some(KeyboardKey::Backtick),
        keys::remote_key(LocalKey::Comma) == Some(KeyboardKey::Comma),
        keys::remote_key(LocalKey::Period) == Some(KeyboardKey::Period),
        keys::remote_key(LocalKey::Slash) == Some(KeyboardKey::Slash),
        keys::remote_key(LocalKey::Num0) == Some(KeyboardKey::Num0),
        keys::remote_key(LocalKey::Num1) == Some(KeyboardKey::Num1),
        keys::remote_key(LocalKey::Num2) == Some(KeyboardKey::Num2),
        keys::remote_key(LocalKey::Num3) == Some(KeyboardKey::Num3),
        keys::remote_key(LocalKey::Num4) == Some(KeyboardKey::Num4),
        keys::remote_key(LocalKey::Num5) == Some(KeyboardKey::Num5),
        keys::remote_key(LocalKey::Num6) == Some(KeyboardKey::Num6),
        keys::remote_key(LocalKey::Num7) == Some(KeyboardKey::Num7),
        keys::remote_key(LocalKey::Num8) == Some(KeyboardKey::Num8),
        keys::remote_key(LocalKey::Num9) == Some(KeyboardKey::Num9),
        keys::remote_key(LocalKey::A) == Some(KeyboardKey::A),
        keys::remote_key(LocalKey::B) == Some(KeyboardKey::B),
        keys::remote_key(LocalKey::C) == Some(KeyboardKey::C),
        keys::remote_key(LocalKey::D) == Some(KeyboardKey::D),
        keys::remote_key(LocalKey::E) == Some(KeyboardKey::E),
        keys::remote_key(LocalKey::F) == Some(KeyboardKey::F),
        keys::remote_key(LocalKey::G) == Some(KeyboardKey::G),
        keys::remote_key(LocalKey::H) == Some(KeyboardKey::H),
        keys::remote_key(LocalKey::I) == Some(KeyboardKey::I),
        keys::remote_key(LocalKey::J) == Some(KeyboardKey::J),
        keys::remote_key(LocalKey::K) == Some(KeyboardKey::K),
        keys::remote_key(LocalKey::L) == Some(KeyboardKey::L),
        keys::remote_key(LocalKey::M) == Some(KeyboardKey::M),
        keys::remote_key(LocalKey::N) == Some(KeyboardKey::N),
        keys::remote_key(LocalKey::O) == Some(KeyboardKey::O),
        keys::remote_key(LocalKey::P) == Some(KeyboardKey::P),
        keys::remote_key(LocalKey::Q) == Some(KeyboardKey::Q),
        keys::remote_key(LocalKey::R) == Some(KeyboardKey::R),
        keys::remote_key(LocalKey::S) == Some(KeyboardKey::S),
        keys::remote_key(LocalKey::T) == Some(KeyboardKey::T),
        keys::remote_key(LocalKey::U) == Some(KeyboardKey::U),
        keys::remote_key(LocalKey::V) == Some(KeyboardKey::V),
        keys::remote_key(LocalKey::W) == Some(KeyboardKey::W),
        keys::remote_key(LocalKey::X) == Some(KeyboardKey::X),
        keys::remote_key(LocalKey::Y) == Some(KeyboardKey::Y),
        keys::remote_key(LocalKey::Z) == Some(KeyboardKey::Z),
        keys::remote_key(LocalKey::F1) == Some(KeyboardKey::F1),
        keys::remote_key(LocalKey::F2) == Some(KeyboardKey::F2),
        keys::remote_key(LocalKey::F3) == Some(KeyboardKey::F3),
        keys::remote_key(LocalKey::F4) == Some(KeyboardKey::F4),
        keys::remote_key(LocalKey::F5) == Some(KeyboardKey::F5),
        keys::remote_key(LocalKey::F6) == Some(KeyboardKey::F6),
        keys::remote_key(LocalKey::F7) == Some(KeyboardKey::F7),
        keys::remote_key(LocalKey::F8) == Some(KeyboardKey::F8),
        keys::remote_key(LocalKey::F9) == Some(KeyboardKey::F9),
        keys::remote_key(LocalKey::F10) == Some(KeyboardKey::F10),
        keys::remote_key(LocalKey::F11) == Some(KeyboardKey::F11),
        keys::remote_key(LocalKey::F12) == Some(KeyboardKey::F12),
{
}

/// A sign that needs another key is that key; a key that the server does not know is none.
pub proof fn signs_are_their_keys()
    ensures
        keys::remote_key(LocalKey::Plus) == Some(KeyboardKey::Equals),
        keys::remote_key(LocalKey::OpenCurlyBracket) == Some(KeyboardKey::OpenBracket),
        keys::remote_key(LocalKey::CloseCurlyBracket) == Some(KeyboardKey::CloseBracket),
        keys::remote_key(LocalKey::Pipe) == Some(KeyboardKey::Backslash),
        keys::remote_key(LocalKey::Colon) == Some(KeyboardKey::Semicolon),
        keys::remote_key(LocalKey::Exclamationmark) == Some(KeyboardKey::Backtick),
        keys::remote_key(LocalKey::Questionmark) == Some(KeyboardKey::Slash),
        keys::remote_key(LocalKey::Other) is None,
{
}

/// A key is held if its bit is set: the bits of a byte are those of eight keys in order.
pub proof fn keys_are_bits(pressed: Seq<u8>, key: KeyboardKey)
    ensures
        ({
            let n = keys::key_index(key);
            let bit: u8 = if n % 8 == 0 {
                1
            } else if n % 8 == 1 {
                2
            } else if n % 8 == 2 {
                4
            } else if n % 8 == 3 {
                8
            } else if n % 8 == 4 {
                16
            } else if n % 8 == 5 {
                32
            } else if n % 8 == 6 {
                64
            } else {
                128
            };
            keys::holds(pressed, key) <==> pressed[(n / 8) as int] & bit != 0
        }),
{
}

/// The modifiers are held as the window system says, and no other key changes with them.
pub proof fn modifiers_are_keys(pressed: Seq<u8>, modifiers: Modifiers, other: KeyboardKey)
    requires
        pressed.len() == 16,
    ensures
        ({
            let after = keys::with_modifiers(pressed, modifiers);
            &&& after.len() == 16
            &&& keys::holds(after, KeyboardKey::Control) == modifiers.ctrl
            &&& keys::holds(after, KeyboardKey::Shift) == modifiers.shift
            &&& keys::holds(after, KeyboardKey::Alt) == modifiers.alt
            &&& keys::holds(after, KeyboardKey::Meta) == modifiers.command
            &&& other != KeyboardKey::Control && other != KeyboardKey::Shift && other
                != KeyboardKey::Alt && other != KeyboardKey::Meta ==> keys::holds(after, other)
                == keys::holds(pressed, other)
        }),
{
    let a = keys::with_key(pressed, KeyboardKey::Control, modifiers.ctrl);
    let b = keys::with_key(a, KeyboardKey::Shift, modifiers.shift);
    let c = keys::with_key(b, KeyboardKey::Alt, modifiers.alt);
    keys::setting_a_key_affects_it_alone(pressed, KeyboardKey::Control, modifiers.ctrl, other);
    keys::setting_a_key_affects_it_alone(a, KeyboardKey::Shift, modifiers.shift, other);
    keys::setting_a_key_affects_it_alone(b, KeyboardKey::Alt, modifiers.alt, other);
    keys::setting_a_key_affects_it_alone(c, KeyboardKey::Meta, modifiers.command, other);
    keys::setting_a_key_affects_it_alone(
        a,
        KeyboardKey::Shift,
        modifiers.shift,
        KeyboardKey::Control,
    );
    keys::setting_a_key_affects_it_alone(b, KeyboardKey::Alt, modifiers.alt, KeyboardKey::Control);
    keys::setting_a_key_affects_it_alone(
        c,
        KeyboardKey::Meta,
        modifiers.command,
        KeyboardKey::Control,
    );
    keys::setting_a_key_affects_it_alone(b, KeyboardKey::Alt, modifiers.alt, KeyboardKey::Shift);
    keys::setting_a_key_affects_it_alone(c, KeyboardKey::Meta, modifiers.command, KeyboardKey::Shift);
    keys::setting_a_key_affects_it_alone(c, KeyboardKey::Meta, modifiers.command, KeyboardKey::Alt);
}

/// A keyboard with a key held is not at rest, and one at rest holds no key.
pub proof fn keyboards_at_rest_hold_no_key(pressed: Seq<u8>, key: KeyboardKey)
    requires
        pressed.len() == 16,
        keys::none_held(pressed),
    ensures
        !keys::holds(pressed, key),
{
    keys::keys_have_their_own_bits(key, key);
    let bit = keys::bit_of(keys::key_index(key) % 8);
    assert(pressed[(keys::key_index(key) / 8) as int] == 0);
    assert(0u8 & bit == 0) by (bit_vector);
}

/// The pointer is taken back with Control and Alt; on macOS with Control and Command. The
/// third modifier must not be held.
pub proof fn modifiers_that_take_the_pointer_back(modifiers: Modifiers)
    ensures
        keys::releases_pointer(modifiers, false) <==> modifiers.ctrl && modifiers.alt
            && !modifiers.command,
        keys::releases_pointer(modifiers, true) <==> modifiers.ctrl && modifiers.command
            && !modifiers.alt,
{
}

/// A switch is off if a zero is stored for it, on if anything else is, and otherwise as it is
/// without a choice.
pub proof fn switches_are_off_by_zero(stored: Seq<char>, default: bool)
    ensures
        settings::switch_of(None, default) == default,
        text::trimmed(stored) == "0"@ ==> !settings::switch_of(Some(stored), default),
        text::trimmed(stored) != "0"@ ==> settings::switch_of(Some(stored), default),
{
}

/// A number that is set counts if it is one and not too small; the usual one does otherwise.
pub proof fn numbers_that_are_set_count(stored: Seq<char>, least: int, default: i32)
    ensures
        settings::number_setting(None, least, default) == default,
        settings::signed(stored) is None ==> settings::number_setting(Some(stored), least, default)
            == default,
        settings::signed(stored) matches Some(n) ==> (least <= n && i32::MIN <= n <= i32::MAX
            ==> settings::number_setting(Some(stored), least, default) == n),
        settings::signed(stored) matches Some(n) ==> (n < least ==> settings::number_setting(
            Some(stored),
            least,
            default,
        ) == default),
{
}

/// A number with a minus before it is that number taken negatively, down to the least that
/// there is; without one it is a number up to the largest.
pub proof fn signed_numbers(digits: Seq<char>)
    requires
        digits.len() > 0,
        text::all_digits(digits),
    ensures
        text::digits_value(digits) <= 0x8000_0000 ==> settings::signed(seq!['-'] + digits) == Some(
            -(text::digits_value(digits) as int),
        ),
        text::digits_value(digits) > 0x8000_0000 ==> settings::signed(seq!['-'] + digits) is None,
        text::digits_value(digits) <= 0x7fff_ffff ==> settings::signed(digits) == Some(
            text::digits_value(digits) as int,
        ),
        text::digits_value(digits) > 0x7fff_ffff ==> settings::signed(digits) is None,
{
    assert((seq!['-'] + digits).skip(1) =~= digits);
    assert(text::is_digit(digits[0]));
}

/// Hexadecimal digits are written four bits at a time, in lower case.
pub proof fn hexadecimal_numbers_are_written(n: nat, count: nat)
    ensures
        settings::hex_digits(n, count).len() == count,
        count > 0 ==> settings::hex_digits(n, count).last() == settings::hex_char(n % 16)
            && settings::hex_digits(n, count).drop_last() == settings::hex_digits(
            n / 16,
            (count - 1) as nat,
        ),
        n < 10 ==> settings::hex_char(n) as u32 == '0' as u32 + n,
        10 <= n < 16 ==> settings::hex_char(n) as u32 == 'a' as u32 + n - 10,
    decreases count,
{
    if count > 0 {
        hexadecimal_numbers_are_written(n / 16, (count - 1) as nat);
        let before = settings::hex_digits(n / 16, (count - 1) as nat);
        assert(before.push(settings::hex_char(n % 16)).drop_last() =~= before);
    }
}

/// The traffic class of the newer protocol is set for its own addresses, and not for those
/// that stand for one of the older.
pub proof fn traffic_classes_are_of_the_newer_protocol(v4: [u8; 4], v6: [u16; 8])
    ensures
        !settings::uses_traffic_class(IpAddr::V4(v4)),
        v6@[5] != 0xffff ==> settings::uses_traffic_class(IpAddr::V6(v6)),
        v6@[0] != 0 || v6@[1] != 0 || v6@[2] != 0 || v6@[3] != 0 || v6@[4] != 0
            ==> settings::uses_traffic_class(IpAddr::V6(v6)),
        v6@[0] == 0 && v6@[1] == 0 && v6@[2] == 0 && v6@[3] == 0 && v6@[4] == 0 && v6@[5] == 0xffff
            ==> !settings::uses_traffic_class(IpAddr::V6(v6)),
{
}

/// The renderer is the one that is asked for; without a word, and with an unknown one, the
/// system's usual.
pub proof fn renderers_are_chosen(word: Seq<char>, linux: bool)
    ensures
        word == "wgpu"@ || word == "wgpu-min-latency"@ ==> settings::renderer_of(word, linux) == (
            Renderer::Wgpu,
            true,
        ),
        word == "glow"@ ==> settings::renderer_of(word, linux) == (Renderer::Glow, true),
        word != "wgpu"@ && word != "wgpu-min-latency"@ && word != "glow"@ ==> settings::renderer_of(
            word,
            linux,
        ).0 == settings::default_renderer(linux) && settings::renderer_of(word, linux).1 == (word
            == ""@),
        settings::default_renderer(true) == Renderer::Wgpu,
        settings::default_renderer(false) == Renderer::Glow,
{
    reveal_strlit("wgpu");
    reveal_strlit("wgpu-min-latency");
    reveal_strlit("glow");
    assert("glow"@[0] == 'g' && "wgpu"@[0] == 'w' && "wgpu-min-latency"@[0] == 'w');
}

/// A worker's report is shown as it is: what is new, that nothing is, or what went wrong.
pub proof fn reports_are_shown(
    version: String,
    url: String,
    release: ReleaseInfo,
    error: String,
)
    ensures
        UpdateUiState::reported(
            UpdateWorkerEvent::CheckFinished(
                Ok(CheckOutcome::UpToDate { latest_version: version, html_url: url }),
            ),
        ) == (UpdateUiState::UpToDate { version, html_url: url }),
        UpdateUiState::reported(
            UpdateWorkerEvent::CheckFinished(Ok(CheckOutcome::UpdateAvailable(release))),
        ) == UpdateUiState::UpdateAvailable(release),
        UpdateUiState::reported(UpdateWorkerEvent::CheckFinished(Err(error)))
            == UpdateUiState::Error(error),
        UpdateUiState::reported(UpdateWorkerEvent::InstallPrepared { version, result: Ok(()) })
            == (UpdateUiState::ClosingForUpdate { version }),
        UpdateUiState::reported(UpdateWorkerEvent::InstallPrepared { version, result: Err(error) })
            == UpdateUiState::Error(error),
{
}

/// A check can be begun while no worker is busy, where updates are supported.
pub proof fn checks_wait_for_workers(state: UpdateUiState)
    ensures
        state.checkable() <==> !(state is Checking) && !(state is Downloading) && !(state
            is Unsupported),
        state.busy() <==> state is Checking || state is Downloading,
{
}

/// The user is told what is up, with the version it is about.
pub proof fn updates_are_told(state: UpdateUiState, compact: bool)
    ensures
        state matches UpdateUiState::Unsupported(message) ==> state.text(compact) == message@,
        state matches UpdateUiState::Error(message) ==> state.text(compact) == message@,
        state matches UpdateUiState::UpdateAvailable(release) ==> state.text(compact)
            == "Update available: v"@ + release.version@,
        state matches UpdateUiState::UpToDate { version, .. } ==> state.text(compact)
            == "Up to date. Latest release: v"@ + version@,
        state matches UpdateUiState::Downloading { version } ==> state.text(compact)
            == "Downloading and installing v"@ + version@ + "..."@,
{
}

/// The pointer counts as active for three seconds after it has moved.
pub proof fn pointers_are_active_for_a_while(moved: Instant, now: Instant)
    requires
        moved.nanos <= now.nanos,
    ensures
        window::recently_active(Some(moved), now) <==> now.nanos - moved.nanos < 3_000_000_000,
        !window::recently_active(None, now),
{
}

} // verus!

//! The user's settings: what they mean, and how they are written down.
use crate::addr::IpAddr;
use crate::home;
use crate::text;
use crate::text::{chars_of, parse_digits, parse_unsigned, says_no, says_yes, str_eq, trim,
    trim_trailing};
use vstd::prelude::*;
use vstd::string::*;

verus! {

/// A switch that has been written down: off if it is a zero, on if it is anything
/// else.
pub open spec fn switch_of(text: Option<Seq<char>>, default: bool) -> bool {
    match text {
        Some(text) => text::trimmed(text) != "0"@,
        None => default,
    }
}

pub fn load_switch(text: Option<&str>, default: bool) -> (on: bool)
    ensures
        on == switch_of(
            match text {
                Some(text) => Some(text@),
                None => None,
            },
            default,
        ),
{
    match text {
        Some(text) => {
            let trimmed = trim(text);
            !str_eq(trimmed.as_str(), "0")
        },
        None => default,
    }
}

/// How a switch is written down.
pub fn switch_text(on: bool) -> (s: &'static str)
    ensures
        s@ == if on {
            "1"@
        } else {
            "0"@
        },
{
    if on {
        "1"
    } else {
        "0"
    }
}

/// A switch is read as it was written, whatever the default is.
pub proof fn switches_read_back(on: bool, default: bool)
    ensures
        switch_of(
            Some(
                if on {
                    "1"@
                } else {
                    "0"@
                },
            ),
            default,
        ) == on,
{
    reveal_strlit("1");
    reveal_strlit("0");
    assert(text::trimmed("1"@) == "1"@);
    assert(text::trimmed("0"@) == "0"@);
    assert("1"@[0] != "0"@[0]);
}

/// The token that has been written down.
pub fn load_token(text: Option<&str>) -> (token: String)
    ensures
        token@ == match text {
            Some(text) => text::trimmed(text@),
            None => Seq::empty(),
        },
{
    match text {
        Some(text) => trim(text),
        None => String::new(),
    }
}

/// The identity that has been written down, if there is one.
pub fn load_peer_id(text: Option<&str>) -> (id: Option<String>)
    ensures
        match text {
            Some(text) => match id {
                Some(id) => id@ == text::trimmed(text@) && id@.len() > 0,
                None => text::trimmed(text@).len() == 0,
            },
            None => id is None,
        },
{
    match text {
        Some(text) => {
            let id = trim(text);
            if id.as_str().is_empty() {
                None
            } else {
                Some(id)
            }
        },
        None => None,
    }
}

pub open spec fn hex_char(d: nat) -> char {
    if d < 10 {
        ('0' as u32 + d) as char
    } else {
        ('a' as u32 + d - 10) as char
    }
}

/// A number in `count` hexadecimal digits.
pub open spec fn hex_digits(n: nat, count: nat) -> Seq<char>
    decreases count,
{
    if count == 0 {
        Seq::empty()
    } else {
        hex_digits(n / 16, (count - 1) as nat).push(hex_char(n % 16))
    }
}

fn hex_digit(d: u64) -> (c: char)
    requires
        d < 16,
    ensures
        c == hex_char(d as nat),
{
    if d < 10 {
        text::digit_to_char(d)
    } else if d == 10 {
        'a'
    } else if d == 11 {
        'b'
    } else if d == 12 {
        'c'
    } else if d == 13 {
        'd'
    } else if d == 14 {
        'e'
    } else {
        'f'
    }
}

/// Appends a number in `count` hexadecimal digits.
pub fn push_hex(s: &mut String, n: u64, count: u8)
    ensures
        final(s)@ == old(s)@ + hex_digits(n as nat, count as nat),
    decreases count,
{
    if count > 0 {
        push_hex(s, n / 16, count - 1);
        let ghost so_far = s@;
        s.push(hex_digit(n % 16));
        proof {
            assert(s@ =~= old(s)@ + hex_digits(n as nat, count as nat));
        }
    } else {
        proof {
            assert(s@ =~= old(s)@ + hex_digits(n as nat, 0));
        }
    }
}

/// A new identity, made of two numbers that came by chance.
pub fn peer_id_text(a: u64, b: u64) -> (id: String)
    ensures
        id@ == hex_digits(a as nat, 16) + hex_digits(b as nat, 16),
{
    let mut id = String::new();
    push_hex(&mut id, a, 16);
    push_hex(&mut id, b, 16);
    id
}

/// The address of the directory of servers, without the slashes at its end.
pub fn resolve_api_url(setting: Option<&str>) -> (url: String)
    ensures
        url@ == text::without_trailing(
            match setting {
                Some(setting) => setting@,
                None => "https://st-api.kubemaxx.io"@,
            },
            '/',
        ),
{
    match setting {
        Some(setting) => trim_trailing(setting, '/'),
        None => trim_trailing("https://st-api.kubemaxx.io", '/'),
    }
}

/// The most the user allows the stream to take, in kilobits per second.
pub fn client_bitrate_preference_kbps(setting: Option<&str>) -> (kbps: Option<u32>)
    ensures
        kbps == match setting {
            Some(setting) => match text::unsigned(text::trimmed(setting@), u32::MAX as nat) {
                Some(n) => if n > 0 {
                    Some(n as u32)
                } else {
                    None
                },
                None => None,
            },
            None => None,
        },
{
    match setting {
        Some(setting) => {
            let trimmed = trim(setting);
            match parse_unsigned(trimmed.as_str(), u32::MAX as u64) {
                Some(n) => if n > 0 {
                    Some(n as u32)
                } else {
                    None
                },
                None => None,
            }
        },
        None => None,
    }
}

/// Whether the client offers to show more than the standard range of colours.
pub fn client_hdr_display_supported(setting: Option<&str>) -> (r: bool)
    ensures
        r == match setting {
            Some(setting) => text::is_yes(setting@),
            None => false,
        },
{
    match setting {
        Some(setting) => says_yes(setting),
        None => false,
    }
}

/// Whether the server's cursor is drawn only with the pointer surely over the
/// window.
pub fn cursor_strict_presence(setting: Option<&str>) -> (r: bool)
    ensures
        r == match setting {
            Some(setting) => !text::is_no(setting@),
            None => true,
        },
{
    match setting {
        Some(setting) => !says_no(setting),
        None => true,
    }
}

/// The signed number of 32 bits that a text spells.
pub open spec fn signed(s: Seq<char>) -> Option<int> {
    if s.len() > 1 && s[0] == '-' {
        if text::all_digits(s.skip(1)) && text::digits_value(s.skip(1)) <= 0x8000_0000 {
            Some(-(text::digits_value(s.skip(1)) as int))
        } else {
            None
        }
    } else {
        match text::unsigned(s, 0x7fff_ffff) {
            Some(n) => Some(n as int),
            None => None,
        }
    }
}

fn parse_signed(s: &str) -> (r: Option<i32>)
    ensures
        match r {
            Some(n) => signed(s@) == Some(n as int),
            None => signed(s@) is None,
        },
{
    let v = chars_of(s);
    let n: usize = v.len();
    if n > 1 && v[0] == '-' {
        proof {
            assert(v@.subrange(1, n as int) =~= s@.skip(1));
        }
        match parse_digits(&v, 1, n, 0x8000_0000) {
            Some(value) => Some((-(value as i64)) as i32),
            None => None,
        }
    } else {
        match parse_unsigned(s, 0x7fff_ffff) {
            Some(value) => Some(value as i32),
            None => None,
        }
    }
}

/// A setting that has to be a number of at least `least`.
pub open spec fn number_setting(setting: Option<Seq<char>>, least: int, default: i32) -> i32 {
    match setting {
        Some(text) => match signed(text) {
            Some(n) => if n >= least {
                n as i32
            } else {
                default
            },
            None => default,
        },
        None => default,
    }
}

pub open spec fn setting_text(setting: Option<&str>) -> Option<Seq<char>> {
    match setting {
        Some(text) => Some(text@),
        None => None,
    }
}

fn number_or(setting: Option<&str>, least: i32, default: i32) -> (r: i32)
    ensures
        r == number_setting(setting_text(setting), least as int, default),
{
    match setting {
        Some(text) => match parse_signed(text) {
            Some(n) => if n >= least {
                n
            } else {
                default
            },
            None => default,
        },
        None => default,
    }
}

/// What is asked of the socket that media comes through.
#[derive(Clone, Copy, Debug, PartialEq, Eq, Structural)]
pub struct UdpOptions {
    pub receive_buffer: i32,
    pub send_buffer: i32,
    /// How routers are to treat the packets, if the user says.
    pub dscp: Option<u8>,
    pub priority: i32,
}

/// Reads the settings of the media socket.
pub fn media_udp_options(
    receive_buffer: Option<&str>,
    send_buffer: Option<&str>,
    dscp: Option<&str>,
    priority: Option<&str>,
) -> (options: UdpOptions)
    ensures
        options.receive_buffer == number_setting(setting_text(receive_buffer), 1, 4_194_304),
        options.send_buffer == number_setting(setting_text(send_buffer), 1, 1_048_576),
        options.dscp == match dscp {
            Some(text) => match text::unsigned(text@, 63) {
                Some(n) => Some(n as u8),
                None => None,
            },
            None => None,
        },
        options.priority == number_setting(setting_text(priority), 0, 5),
{
    let dscp = match dscp {
        Some(text) => match parse_unsigned(text, 63) {
            Some(n) => Some(n as u8),
            None => None,
        },
        None => None,
    };
    UdpOptions {
        receive_buffer: number_or(receive_buffer, 1, 4_194_304),
        send_buffer: number_or(send_buffer, 1, 1_048_576),
        dscp,
        priority: number_or(priority, 0, 5),
    }
}

/// The byte that a treatment is written into: its six bits, before two others.
pub fn traffic_class(dscp: u8) -> (tos: i32)
    ensures
        tos == dscp * 4,
{
    dscp as i32 * 4
}

/// Whether the traffic class of the newer protocol applies: the server's address
/// is of that protocol, and does not stand for one of the older.
pub open spec fn uses_traffic_class(ip: IpAddr) -> bool {
    match ip {
        IpAddr::V6(g) => !(g@[0] == 0 && g@[1] == 0 && g@[2] == 0 && g@[3] == 0 && g@[4] == 0
            && g@[5] == 0xffff),
        IpAddr::V4(_) => false,
    }
}

pub fn has_traffic_class(ip: &IpAddr) -> (r: bool)
    ensures
        r == uses_traffic_class(*ip),
{
    match ip {
        IpAddr::V6(g) => !(g[0] == 0 && g[1] == 0 && g[2] == 0 && g[3] == 0 && g[4] == 0 && g[5]
            == 0xffff),
        IpAddr::V4(_) => false,
    }
}

/// What draws the window.
#[derive(Clone, Copy, Debug, PartialEq, Eq, Structural)]
pub enum Renderer {
    Wgpu,
    Glow,
}

pub open spec fn default_renderer(linux: bool) -> Renderer {
    if linux {
        Renderer::Wgpu
    } else {
        Renderer::Glow
    }
}

/// What a setting, in lower case, asks for, and whether it asks for something that
/// there is.
pub open spec fn renderer_of(setting: Seq<char>, linux: bool) -> (Renderer, bool) {
    if setting == "wgpu"@ || setting == "wgpu-min-latency"@ {
        (Renderer::Wgpu, true)
    } else if setting == "glow"@ {
        (Renderer::Glow, true)
    } else {
        (default_renderer(linux), setting == ""@)
    }
}

/// Chooses what draws the window by a setting in lower case.
pub fn choose_renderer(setting: &str, linux: bool) -> (r: (Renderer, bool))
    ensures
        r == renderer_of(setting@, linux),
{
    let default = if linux {
        Renderer::Wgpu
    } else {
        Renderer::Glow
    };
    if str_eq(setting, "wgpu") || str_eq(setting, "wgpu-min-latency") {
        (Renderer::Wgpu, true)
    } else if str_eq(setting, "glow") {
        (Renderer::Glow, true)
    } else {
        (default, str_eq(setting, ""))
    }
}

/// Chooses what draws the window. Upper and lower case make no difference in the
/// setting.
pub fn renderer_setting(setting: Option<&str>, linux: bool) -> (r: (Renderer, bool))
    ensures
        r == match setting {
            Some(setting) => renderer_of(home::lowercased(setting@), linux),
            None => renderer_of(""@, linux),
        },
{
    match setting {
        Some(setting) => {
            let lower = home::to_lowercase(setting);
            choose_renderer(lower.as_str(), linux)
        },
        None => choose_renderer("", linux),
    }
}

/// How finished frames reach the screen.
#[derive(Clone, Copy, Debug, PartialEq, Eq, Structural)]
pub enum PresentMode {
    Fifo,
    Mailbox,
}

/// Chooses how frames reach the screen. `software` tells of each adapter whether
/// it is software alone; such adapters know no other way than one after another.
pub fn pick_wgpu_present_mode(software: &Vec<bool>) -> (mode: PresentMode)
    ensures
        mode == if exists|i: int| 0 <= i < software@.len() && !#[trigger] software@[i] {
            PresentMode::Mailbox
        } else {
            PresentMode::Fifo
        },
{
    let mut i: usize = 0;
    while i < software.len()
        invariant
            i <= software.len(),
            forall|k: int| 0 <= k < i ==> #[trigger] software@[k],
        decreases software.len() - i,
    {
        if !software[i] {
            return PresentMode::Mailbox;
        }
        i = i + 1;
    }
    PresentMode::Fifo
}

} // verus!

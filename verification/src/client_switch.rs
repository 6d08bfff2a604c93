//! Client-variant switching.
//!
//! The target ships in two distribution variants that differ only in the
//! channel number of a text configuration file next to the executable. The
//! rewriting of that file's lines is decided here; reading and writing the
//! file, and staging the extra SDK files of the second variant, happen
//! outside the library.

use vstd::prelude::*;
use vstd::string::StringExecFns;

use crate::text::str_has_prefix;

verus! {

/// The distribution variant the target should start as.
#[derive(Clone, Copy, Debug, PartialEq, Eq, Structural)]
pub enum ClientType {
    Official,
    Bilibili,
}

/// The channel line the configuration file must carry for a variant.
pub open spec fn spec_channel_line(t: ClientType) -> Seq<char> {
    match t {
        ClientType::Official => "channel=1"@,
        ClientType::Bilibili => "channel=14"@,
    }
}

impl ClientType {
    /// The channel line of this variant.
    pub fn channel_line(&self) -> (r: String)
        ensures
            r@ == spec_channel_line(*self),
    {
        match self {
            ClientType::Official => String::from_str("channel=1"),
            ClientType::Bilibili => String::from_str("channel=14"),
        }
    }
}

/// How one line of the configuration file is rewritten: a line that begins
/// with the channel key is replaced by the variant's channel line, any other
/// line is kept as it is.
pub open spec fn spec_rewrite_line(line: Seq<char>, t: ClientType) -> Seq<char> {
    if line.len() >= "channel="@.len() && line.subrange(0, "channel="@.len() as int)
        == "channel="@ {
        spec_channel_line(t)
    } else {
        line
    }
}

/// The switcher: where the target lives and which variant it should run as.
pub struct ClientSwitch {
    pub game_path: String,
    pub client_type: ClientType,
}

impl Default for ClientSwitch {
    /// The built-in fallback: the conventional install path and the official
    /// variant. A stored path, where one exists, replaces the fallback
    /// outside the library.
    fn default() -> (r: ClientSwitch)
        ensures
            r.game_path@
                == "D:\\Program Files\\Genshin Impact\\Genshin Impact Game\\YuanShen.exe"@,
            r.client_type == ClientType::Official,
    {
        ClientSwitch {
            game_path: String::from_str(
                "D:\\Program Files\\Genshin Impact\\Genshin Impact Game\\YuanShen.exe",
            ),
            client_type: ClientType::Official,
        }
    }
}

impl ClientSwitch {
    /// Rewrite the configuration file's lines for this switcher's variant:
    /// every line carrying the channel key is replaced by the variant's
    /// channel line; every other line is kept unchanged, in order.
    pub fn rewrite_config_lines(&self, lines: &Vec<String>) -> (out: Vec<String>)
        ensures
            out@.len() == lines@.len(),
            forall|i: int|
                0 <= i < lines@.len() ==> #[trigger] out@[i]@ == spec_rewrite_line(
                    lines@[i]@,
                    self.client_type,
                ),
    {
        let mut out: Vec<String> = Vec::new();
        let mut i: usize = 0;
        while i < lines.len()
            invariant
                i <= lines@.len(),
                out@.len() == i,
                forall|j: int|
                    0 <= j < i ==> #[trigger] out@[j]@ == spec_rewrite_line(
                        lines@[j]@,
                        self.client_type,
                    ),
            decreases lines@.len() - i,
        {
            let line = &lines[i];
            if str_has_prefix(line.as_str(), "channel=") {
                out.push(self.client_type.channel_line());
            } else {
                out.push(line.clone());
            }
            i = i + 1;
        }
        out
    }
}

} // verus!

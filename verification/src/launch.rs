//! Starting the player: where it is looked for, the address of its control
//! channel, and the command line it is started with.

use vstd::prelude::*;
use vstd::string::*;
use crate::text::{
    decimal, decimal_text, is_digit, lemma_decimal_digits, lemma_decimal_injective,
};

verus! {

/// The views of a run of texts, in order.
pub open spec fn texts(items: Seq<String>) -> Seq<Seq<char>> {
    Seq::new(items.len(), |i: int| items[i]@)
}

/// The address of a run's control channel: a named pipe on Windows, a socket
/// under `/tmp` elsewhere, named after the process and a reading of time.
pub open spec fn channel_address(process: nat, nanos: nat, windows: bool) -> Seq<char> {
    if windows {
        "\\\\.\\pipe\\mushell-"@ + decimal_text(process) + "-"@ + decimal_text(nanos)
    } else {
        "/tmp/mushell-"@ + decimal_text(process) + "-"@ + decimal_text(nanos) + ".sock"@
    }
}

/// The address of the control channel of the run of process `process` that
/// read `nanos` off its clock.
pub fn control_channel_address(process: u32, nanos: u128, windows: bool) -> (r: String)
    ensures
        r@ == channel_address(process as nat, nanos as nat, windows),
{
    let process_text = decimal(process as u128);
    let nanos_text = decimal(nanos);
    if windows {
        let mut address = String::from_str("\\\\.\\pipe\\mushell-");
        address.append(process_text.as_str());
        address.append("-");
        address.append(nanos_text.as_str());
        address
    } else {
        let mut address = String::from_str("/tmp/mushell-");
        address.append(process_text.as_str());
        address.append("-");
        address.append(nanos_text.as_str());
        address.append(".sock");
        address
    }
}

/// Two runs share an address only if they are runs of the same process that
/// read the same time: runs that differ in either have different addresses.
pub proof fn lemma_addresses_differ(
    process: nat,
    nanos: nat,
    other_process: nat,
    other_nanos: nat,
    windows: bool,
)
    requires
        channel_address(process, nanos, windows) == channel_address(
            other_process,
            other_nanos,
            windows,
        ),
    ensures
        process == other_process,
        nanos == other_nanos,
{
    reveal_strlit("-");
    let head = if windows {
        "\\\\.\\pipe\\mushell-"@
    } else {
        "/tmp/mushell-"@
    };
    let tail = if windows {
        Seq::<char>::empty()
    } else {
        ".sock"@
    };
    let p = decimal_text(process);
    let n = decimal_text(nanos);
    let q = decimal_text(other_process);
    let m = decimal_text(other_nanos);
    let dash = seq!['-'];
    assert("-"@ == dash);
    let left = head + p + dash + n + tail;
    let right = head + q + dash + m + tail;
    assert(channel_address(process, nanos, windows) == left);
    assert(channel_address(other_process, other_nanos, windows) == right);
    lemma_decimal_digits(process);
    lemma_decimal_digits(other_process);
    assert(!is_digit('-'));
    let h = head.len() as int;
    // The process numbers end at the same place: where one of them ends, a
    // dash stands, and the other holds no dash.
    if p.len() < q.len() {
        assert(left[h + p.len()] == '-');
        assert(right[h + p.len()] == q[p.len() as int]);
        assert(is_digit(q[p.len() as int]));
    }
    if q.len() < p.len() {
        assert(right[h + q.len()] == '-');
        assert(left[h + q.len()] == p[q.len() as int]);
        assert(is_digit(p[q.len() as int]));
    }
    assert(p.len() == q.len());
    assert(p == q) by {
        assert forall|i: int| 0 <= i < p.len() implies p[i] == q[i] by {
            assert(left[h + i] == p[i]);
            assert(right[h + i] == q[i]);
        }
    }
    lemma_decimal_injective(process, other_process);
    assert(left.len() == right.len());
    assert(n.len() == m.len());
    assert(n == m) by {
        let start = h + p.len() + 1;
        assert forall|i: int| 0 <= i < n.len() implies n[i] == m[i] by {
            assert(left[start + i] == n[i]);
            assert(right[start + i] == m[i]);
        }
    }
    lemma_decimal_injective(nanos, other_nanos);
}

/// The file name of the player.
pub open spec fn player_file(windows: bool) -> Seq<char> {
    if windows {
        "mpv.com"@
    } else {
        "mpv"@
    }
}

/// The file name of the helper that resolves addresses for the player.
pub open spec fn resolver_file(windows: bool) -> Seq<char> {
    if windows {
        "yt-dlp.exe"@
    } else {
        "yt-dlp"@
    }
}

/// Where the player lies, as path components below the directory of the
/// running program.
pub fn player_location(windows: bool) -> (r: Vec<String>)
    ensures
        texts(r@) == seq!["third_party"@, "mpv"@, player_file(windows)],
{
    let mut parts: Vec<String> = Vec::new();
    parts.push(String::from_str("third_party"));
    parts.push(String::from_str("mpv"));
    if windows {
        parts.push(String::from_str("mpv.com"));
    } else {
        parts.push(String::from_str("mpv"));
    }
    assert(texts(parts@) == seq!["third_party"@, "mpv"@, player_file(windows)]);
    parts
}

/// The file name of the resolving helper, which lies beside the running
/// program.
pub fn resolver_name(windows: bool) -> (r: String)
    ensures
        r@ == resolver_file(windows),
{
    if windows {
        String::from_str("yt-dlp.exe")
    } else {
        String::from_str("yt-dlp")
    }
}

/// The arguments every start has in common: no configuration files, no
/// video, addresses resolved at the best audio quality, idle without media,
/// no window, nothing kept open at the end, no key bindings of the player's
/// own, no on-screen text, and warnings only.
pub open spec fn common_arguments() -> Seq<Seq<char>> {
    seq![
        "--no-config"@,
        "--no-video"@,
        "--ytdl=yes"@,
        "--ytdl-format=bestaudio/best"@,
        "--idle=yes"@,
        "--force-window=no"@,
        "--keep-open=no"@,
        "--input-default-bindings=no"@,
        "--input-vo-keyboard=no"@,
        "--term-osd=no"@,
        "--msg-level=all=warn"@,
    ]
}

/// The whole command line: the common arguments, the control channel's
/// address, and the resolving helper's path where there is one.
pub open spec fn launch_arguments(address: Seq<char>, resolver: Option<Seq<char>>) -> Seq<
    Seq<char>,
> {
    let fixed = common_arguments().push("--input-ipc-server="@ + address);
    match resolver {
        Some(path) => fixed.push("--script-opts=ytdl_hook-ytdl_path="@ + path),
        None => fixed,
    }
}

/// The arguments the player is started with.
pub fn player_arguments(address: &str, resolver: Option<&str>) -> (r: Vec<String>)
    ensures
        texts(r@) == launch_arguments(
            address@,
            match resolver {
                Some(path) => Some(path@),
                None => None,
            },
        ),
{
    let mut arguments: Vec<String> = Vec::new();
    arguments.push(String::from_str("--no-config"));
    arguments.push(String::from_str("--no-video"));
    arguments.push(String::from_str("--ytdl=yes"));
    arguments.push(String::from_str("--ytdl-format=bestaudio/best"));
    arguments.push(String::from_str("--idle=yes"));
    arguments.push(String::from_str("--force-window=no"));
    arguments.push(String::from_str("--keep-open=no"));
    arguments.push(String::from_str("--input-default-bindings=no"));
    arguments.push(String::from_str("--input-vo-keyboard=no"));
    arguments.push(String::from_str("--term-osd=no"));
    arguments.push(String::from_str("--msg-level=all=warn"));
    arguments.push(String::from_str("--input-ipc-server=").concat(address));
    assert(texts(arguments@) == common_arguments().push("--input-ipc-server="@ + address@));
    if let Some(path) = resolver {
        let ghost fixed = texts(arguments@);
        arguments.push(String::from_str("--script-opts=ytdl_hook-ytdl_path=").concat(path));
        assert(texts(arguments@) == fixed.push("--script-opts=ytdl_hook-ytdl_path="@ + path@));
    }
    arguments
}

/// What becomes of one of the player's standard streams.
#[derive(Clone, Copy, Debug, PartialEq, Eq, Structural)]
pub enum Stream {
    /// Nothing is connected to it.
    Closed,
    /// It is captured, away from the terminal.
    Captured,
}

/// Everything needed to start the player.
#[derive(Debug, PartialEq, Eq)]
pub struct LaunchPlan {
    pub program: String,
    pub arguments: Vec<String>,
    pub stdin: Stream,
    pub stdout: Stream,
    pub stderr: Stream,
}

/// Why the player cannot be started.
#[derive(Debug, PartialEq, Eq)]
pub enum LaunchError {
    /// No player lies at `path`, where it was expected.
    PlayerMissing { path: String },
}

/// The words that name a missing player's expected path.
pub open spec fn missing_text(path: Seq<char>) -> Seq<char> {
    "mpv 不存在於: "@ + path
}

impl LaunchError {
    /// What to tell the user.
    pub fn message(&self) -> (r: String)
        ensures
            match self {
                LaunchError::PlayerMissing { path } => r@ == missing_text(path@),
            },
    {
        match self {
            LaunchError::PlayerMissing { path } => String::from_str("mpv 不存在於: ").concat(
                path.as_str(),
            ),
        }
    }
}

/// The plan for starting the player at `player`, or the reason why it cannot
/// be started.
///
/// `player_found` and `resolver_found` say whether a file lies at `player`
/// and at `resolver`. The player is a must; the resolving helper is named to
/// the player only where it was found.
pub fn plan_launch(
    player: &str,
    player_found: bool,
    resolver: &str,
    resolver_found: bool,
    address: &str,
) -> (r: Result<LaunchPlan, LaunchError>)
    ensures
        match r {
            Ok(plan) => {
                &&& player_found
                &&& plan.program@ == player@
                &&& texts(plan.arguments@) == launch_arguments(
                    address@,
                    if resolver_found {
                        Some(resolver@)
                    } else {
                        None
                    },
                )
                &&& plan.stdin == Stream::Closed
                &&& plan.stdout == Stream::Captured
                &&& plan.stderr == Stream::Captured
            },
            Err(LaunchError::PlayerMissing { path }) => !player_found && path@ == player@,
        },
{
    if !player_found {
        return Err(LaunchError::PlayerMissing { path: String::from_str(player) });
    }
    let arguments = if resolver_found {
        player_arguments(address, Some(resolver))
    } else {
        player_arguments(address, None)
    };
    Ok(
        LaunchPlan {
            program: String::from_str(player),
            arguments,
            stdin: Stream::Closed,
            stdout: Stream::Captured,
            stderr: Stream::Captured,
        },
    )
}

} // verus!

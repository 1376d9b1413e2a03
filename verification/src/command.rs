//! Remote-control commands for the player and the line each is sent as.
//!
//! A command travels as one line of text: a JSON object whose single member
//! `command` holds the command's name followed by its arguments.

use vstd::prelude::*;
use vstd::string::*;

verus! {

/// One argument of a command.
#[derive(Debug, PartialEq, Eq)]
pub enum Arg {
    Text(String),
    Number(i64),
}

/// The mathematical content of an [`Arg`].
pub enum ArgView {
    Text(Seq<char>),
    Number(int),
}

impl View for Arg {
    type V = ArgView;

    open spec fn view(&self) -> ArgView {
        match self {
            Arg::Text(s) => ArgView::Text(s@),
            Arg::Number(n) => ArgView::Number(*n as int),
        }
    }
}

/// The contents of a run of arguments, in order.
pub open spec fn arg_views(args: Seq<Arg>) -> Seq<ArgView> {
    Seq::new(args.len(), |i: int| args[i]@)
}

/// How a seek position is to be read.
#[derive(Clone, Copy, Debug, PartialEq, Eq, Structural)]
pub enum SeekMode {
    /// From the current position.
    Relative,
    /// From the start of the track.
    Absolute,
}

/// A command: its name and its arguments in order.
#[derive(Debug, PartialEq, Eq)]
pub struct Command {
    pub name: String,
    pub args: Vec<Arg>,
}

/// The mathematical content of a [`Command`].
pub struct CommandView {
    pub name: Seq<char>,
    pub args: Seq<ArgView>,
}

impl CommandView {
    /// The name and the arguments as one list, the name first.
    pub open spec fn words(self) -> Seq<ArgView> {
        seq![ArgView::Text(self.name)] + self.args
    }

    /// The command that ends the player.
    pub open spec fn quit() -> CommandView {
        CommandView { name: "quit"@, args: Seq::empty() }
    }

    /// The command that pauses a playing track and resumes a paused one.
    pub open spec fn toggle_pause() -> CommandView {
        CommandView { name: "cycle"@, args: seq![ArgView::Text("pause"@)] }
    }

    /// The command that changes the volume by `delta`.
    pub open spec fn add_volume(delta: int) -> CommandView {
        CommandView {
            name: "add"@,
            args: seq![ArgView::Text("volume"@), ArgView::Number(delta)],
        }
    }

    /// The command that seeks by or to `seconds`, exactly.
    pub open spec fn seek(seconds: int, mode: SeekMode) -> CommandView {
        CommandView {
            name: "seek"@,
            args: seq![
                ArgView::Number(seconds),
                ArgView::Text(
                    match mode {
                        SeekMode::Relative => "relative"@,
                        SeekMode::Absolute => "absolute"@,
                    },
                ),
                ArgView::Text("exact"@),
            ],
        }
    }

    /// The command that plays `url` in place of what plays now.
    pub open spec fn load(url: Seq<char>) -> CommandView {
        CommandView {
            name: "loadfile"@,
            args: seq![ArgView::Text(url), ArgView::Text("replace"@)],
        }
    }
}

impl View for Command {
    type V = CommandView;

    open spec fn view(&self) -> CommandView {
        CommandView { name: self.name@, args: arg_views(self.args@) }
    }
}

/// Why a command could not be put into a line.
#[derive(Clone, Copy, Debug, PartialEq, Eq, Structural)]
pub enum CommandError {
    /// The encoder refused the command.
    Encoding,
}

/// The name of the member that holds a command in its line.
pub open spec fn envelope_key() -> Seq<char> {
    "command"@
}

/// The compact JSON text of the object whose single member `key` holds the
/// array of `words`.
pub uninterp spec fn json_object_text(key: Seq<char>, words: Seq<ArgView>) -> Seq<char>;

/// The line a command is sent as: its JSON text and a line feed.
pub open spec fn command_line(command: CommandView) -> Seq<char> {
    json_object_text(envelope_key(), command.words()).push('\n')
}

/// A text that ends in a line feed and holds no other.
pub open spec fn is_one_line(text: Seq<char>) -> bool {
    &&& text.len() > 0
    &&& text.last() == '\n'
    &&& !text.drop_last().contains('\n')
}

/// Makes the encoder's error type known to the verifier, as a value that is
/// carried and never looked into.
#[verifier::external_type_specification]
#[verifier::external_body]
pub struct ExJsonError(serde_json::Error);

/// Calls `serde_json::to_string` on the JSON object whose single member `key`
/// holds the array of `words`, each text a JSON string and each number a JSON
/// number.
///
/// Trusted, of the encoder:
/// - A text comes back. The encoder fails where the writer fails, where a
///   value's own serializer fails, or where a map's key is no string. Here
///   the writer is a byte vector, the value is the encoder's own `Value`
///   made of strings, integers, one array and one map, and the one key is a
///   string.
/// - The text depends on `key` and `words` alone.
/// - The text holds no line feed: the encoder writes its compact form and
///   escapes every control character inside a string.
#[verifier::external_body]
fn encode_object(key: &str, words: &Vec<Arg>) -> (r: Result<String, serde_json::Error>)
    ensures
        r is Ok,
        r matches Ok(text) ==> text@ == json_object_text(key@, arg_views(words@)),
        r matches Ok(text) ==> !text@.contains('\n'),
{
    let items: Vec<serde_json::Value> = words.iter().map(
        |word| match word {
            Arg::Text(s) => serde_json::Value::String(s.clone()),
            Arg::Number(n) => serde_json::Value::from(*n),
        },
    ).collect();
    let mut object = serde_json::Map::new();
    object.insert(key.to_string(), serde_json::Value::Array(items));
    serde_json::to_string(&serde_json::Value::Object(object))
}

/// Ends an encoded command with a line feed, or reports that there is none.
pub fn frame_line(encoded: Result<String, serde_json::Error>) -> (r: Result<String, CommandError>)
    ensures
        match encoded {
            Ok(text) => r matches Ok(line) && line@ == text@.push('\n'),
            Err(_) => r == Err::<String, CommandError>(CommandError::Encoding),
        },
{
    match encoded {
        Ok(text) => {
            let mut line = text;
            proof {
                reveal_strlit("\n");
            }
            let ghost before = line@;
            line.append("\n");
            assert(line@ == before.push('\n'));
            Ok(line)
        },
        Err(_) => Err(CommandError::Encoding),
    }
}

impl Arg {
    /// A copy with the same content.
    pub fn duplicate(&self) -> (r: Arg)
        ensures
            r@ == self@,
    {
        match self {
            Arg::Text(s) => Arg::Text(s.clone()),
            Arg::Number(n) => Arg::Number(*n),
        }
    }
}

impl Command {
    /// The command that ends the player.
    pub fn quit() -> (r: Command)
        ensures
            r@ == CommandView::quit(),
    {
        let r = Command { name: String::from_str("quit"), args: Vec::new() };
        assert(r@.args == Seq::<ArgView>::empty());
        r
    }

    /// The command that pauses a playing track and resumes a paused one.
    pub fn toggle_pause() -> (r: Command)
        ensures
            r@ == CommandView::toggle_pause(),
    {
        let mut args: Vec<Arg> = Vec::new();
        args.push(Arg::Text(String::from_str("pause")));
        let r = Command { name: String::from_str("cycle"), args };
        assert(r@.args == CommandView::toggle_pause().args);
        r
    }

    /// The command that changes the volume by `delta`.
    pub fn add_volume(delta: i64) -> (r: Command)
        ensures
            r@ == CommandView::add_volume(delta as int),
    {
        let mut args: Vec<Arg> = Vec::new();
        args.push(Arg::Text(String::from_str("volume")));
        args.push(Arg::Number(delta));
        let r = Command { name: String::from_str("add"), args };
        assert(r@.args == CommandView::add_volume(delta as int).args);
        r
    }

    /// The command that seeks by or to `seconds`, exactly.
    pub fn seek(seconds: i64, mode: SeekMode) -> (r: Command)
        ensures
            r@ == CommandView::seek(seconds as int, mode),
    {
        let mut args: Vec<Arg> = Vec::new();
        args.push(Arg::Number(seconds));
        match mode {
            SeekMode::Relative => args.push(Arg::Text(String::from_str("relative"))),
            SeekMode::Absolute => args.push(Arg::Text(String::from_str("absolute"))),
        }
        args.push(Arg::Text(String::from_str("exact")));
        let r = Command { name: String::from_str("seek"), args };
        assert(r@.args == CommandView::seek(seconds as int, mode).args);
        r
    }

    /// The command that plays `url` in place of what plays now.
    pub fn load(url: String) -> (r: Command)
        ensures
            r@ == CommandView::load(url@),
    {
        let mut args: Vec<Arg> = Vec::new();
        args.push(Arg::Text(url));
        args.push(Arg::Text(String::from_str("replace")));
        let r = Command { name: String::from_str("loadfile"), args };
        assert(r@.args == CommandView::load(url@).args);
        r
    }

    /// The name and the arguments as one list, the name first.
    pub fn words(&self) -> (r: Vec<Arg>)
        ensures
            arg_views(r@) == self@.words(),
    {
        let mut all: Vec<Arg> = Vec::new();
        all.push(Arg::Text(self.name.clone()));
        let mut i: usize = 0;
        while i < self.args.len()
            invariant
                i <= self.args.len(),
                arg_views(all@) == seq![ArgView::Text(self.name@)] + arg_views(
                    self.args@,
                ).take(i as int),
            decreases self.args.len() - i,
        {
            let ghost before = arg_views(all@);
            all.push(self.args[i].duplicate());
            assert(arg_views(all@) == before.push(self.args@[i as int]@));
            assert(arg_views(self.args@).take(i + 1) == arg_views(self.args@).take(i as int).push(
                self.args@[i as int]@,
            ));
            i += 1;
        }
        assert(arg_views(self.args@).take(self.args.len() as int) == arg_views(self.args@));
        all
    }

    /// The line this command is sent as.
    ///
    /// The command's name and arguments go to the encoder under the member
    /// `command`. Every command has a line: the encoder's text and one line
    /// feed, and no other line feed stands in it.
    pub fn to_line(&self) -> (r: Result<String, CommandError>)
        ensures
            r matches Ok(line) && line@ == command_line(self@) && is_one_line(line@),
    {
        let words = self.words();
        let encoded = encode_object("command", &words);
        let ghost text = encoded;
        let r = frame_line(encoded);
        proof {
            if r is Ok {
                assert(r->Ok_0@.drop_last() == text->Ok_0@);
            }
        }
        r
    }
}

} // verus!

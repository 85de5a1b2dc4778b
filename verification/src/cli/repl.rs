//! The interactive chat: its commands and its state.

use crate::gateway::chat::{ChatRequest, ChatResponse, StreamDelta};
use crate::message::clone_text;
use crate::text::{
    cat2, cat5, chars_of, decimal, decimal_of, find_white, parse_unsigned, starts_with,
    str_eq, string_of, strip_prefix, trimmed, unsigned_of, until_white,
};
use crate::types::{cut, cut_to, AgentId, SessionKey};
use vstd::prelude::*;
use vstd::string::*;

verus! {

/// The commands of the chat, each with its description.
pub open spec fn command_list() -> Seq<(Seq<char>, Seq<char>)> {
    seq![
        ("/quit"@, "Exit the REPL"@),
        ("/exit"@, "Exit the REPL"@),
        ("/clear"@, "Clear the current session"@),
        ("/help"@, "Show available commands"@),
        ("/session"@, "Show current session key"@),
        ("/model"@, "Show or change the model (usage: /model [id])"@),
        ("/think"@, "Set thinking budget (usage: /think [tokens])"@),
    ]
}

/// The commands of the chat.
pub open spec fn command_names() -> Seq<Seq<char>> {
    command_list().map_values(|c: (Seq<char>, Seq<char>)| c.0)
}

/// The commands of the chat, each with its description.
pub fn slash_commands() -> (r: Vec<(&'static str, &'static str)>)
    ensures
        r@.map_values(|c: (&'static str, &'static str)| (c.0@, c.1@)) == command_list(),
{
    let mut out: Vec<(&'static str, &'static str)> = Vec::new();
    out.push(("/quit", "Exit the REPL"));
    out.push(("/exit", "Exit the REPL"));
    out.push(("/clear", "Clear the current session"));
    out.push(("/help", "Show available commands"));
    out.push(("/session", "Show current session key"));
    out.push(("/model", "Show or change the model (usage: /model [id])"));
    out.push(("/think", "Set thinking budget (usage: /think [tokens])"));
    assert(out@.map_values(|c: (&'static str, &'static str)| (c.0@, c.1@)) =~= command_list());
    out
}

/// Those of the names that begin with a prefix, in order.
pub open spec fn completions(names: Seq<Seq<char>>, prefix: Seq<char>) -> Seq<Seq<char>>
    decreases names.len(),
{
    if names.len() == 0 {
        Seq::empty()
    } else if prefix.is_prefix_of(names.last()) {
        completions(names.drop_last(), prefix).push(names.last())
    } else {
        completions(names.drop_last(), prefix)
    }
}

/// The commands that complete the first `pos` bytes of a line, and where the
/// completed text starts. Only a line that begins with a slash is completed.
pub fn complete(line: &str, pos: usize) -> (r: (usize, Vec<String>))
    ensures
        r.0 == if "/"@.is_prefix_of(line@) {
            0
        } else {
            pos
        },
        r.1.deep_view() == if "/"@.is_prefix_of(line@) {
            completions(command_names(), cut(line@, pos as int))
        } else {
            Seq::empty()
        },
{
    let mut out: Vec<String> = Vec::new();
    if !starts_with(line, "/") {
        assert(out.deep_view() =~= Seq::empty());
        return (pos, out);
    }
    let prefix = cut_to(line, pos);
    let commands = slash_commands();
    let ghost names = command_names();
    proof {
        let pairs = commands@.map_values(|c: (&'static str, &'static str)| (c.0@, c.1@));
        assert(pairs == command_list());
        assert forall|k: int| 0 <= k < commands@.len() implies names[k] == (
        #[trigger] commands@[k]).0@ by {
            assert(pairs[k] == command_list()[k]);
        }
        assert(names =~= commands@.map_values(|c: (&'static str, &'static str)| c.0@));
    }
    let mut i: usize = 0;
    assert(out.deep_view() =~= completions(names.take(0), prefix@));
    while i < commands.len()
        invariant
            i <= commands@.len(),
            names == commands@.map_values(|c: (&'static str, &'static str)| c.0@),
            out.deep_view() == completions(names.take(i as int), prefix@),
        decreases commands@.len() - i,
    {
        let ghost before = out.deep_view();
        proof {
            let front = names.take(i + 1);
            assert(front.last() == names[i as int]);
            assert(front.drop_last() =~= names.take(i as int));
        }
        let name = commands[i].0;
        if starts_with(name, prefix.as_str()) {
            out.push(name.to_owned());
            assert(out.deep_view() =~= before.push(name@));
        }
        i = i + 1;
    }
    assert(names.take(i as int) =~= names);
    (0, out)
}

/// What a line of the user asks for.
#[derive(Debug)]
pub enum ReplCommand {
    /// Nothing was typed.
    Nothing,
    Quit,
    /// Start a new session.
    Clear,
    Help,
    ShowSession,
    ShowModel,
    /// Take this model from now on.
    Model(String),
    ShowThinking,
    ThinkingOff,
    Thinking(u32),
    /// The thinking budget that was given is none.
    ThinkingUsage,
    /// A command that there is not, without its slash.
    Unknown(String),
    /// Something to say to the model.
    Message(String),
}

/// The value of a `ReplCommand`.
pub enum CommandView {
    Nothing,
    Quit,
    Clear,
    Help,
    ShowSession,
    ShowModel,
    Model(Seq<char>),
    ShowThinking,
    ThinkingOff,
    Thinking(int),
    ThinkingUsage,
    Unknown(Seq<char>),
    Message(Seq<char>),
}

impl View for ReplCommand {
    type V = CommandView;

    open spec fn view(&self) -> CommandView {
        match self {
            ReplCommand::Nothing => CommandView::Nothing,
            ReplCommand::Quit => CommandView::Quit,
            ReplCommand::Clear => CommandView::Clear,
            ReplCommand::Help => CommandView::Help,
            ReplCommand::ShowSession => CommandView::ShowSession,
            ReplCommand::ShowModel => CommandView::ShowModel,
            ReplCommand::Model(id) => CommandView::Model(id@),
            ReplCommand::ShowThinking => CommandView::ShowThinking,
            ReplCommand::ThinkingOff => CommandView::ThinkingOff,
            ReplCommand::Thinking(n) => CommandView::Thinking(*n as int),
            ReplCommand::ThinkingUsage => CommandView::ThinkingUsage,
            ReplCommand::Unknown(name) => CommandView::Unknown(name@),
            ReplCommand::Message(text) => CommandView::Message(text@),
        }
    }
}

/// What follows the command word: the rest after one space, trimmed.
pub open spec fn command_args(s: Seq<char>) -> Seq<char> {
    let word = until_white(s);
    if word.len() < s.len() {
        trimmed(s.skip(word.len() as int + 1))
    } else {
        Seq::empty()
    }
}

/// The command for a thinking budget.
pub open spec fn thinking_command(args: Seq<char>) -> CommandView {
    if args.len() == 0 {
        CommandView::ShowThinking
    } else if args == "off"@ || args == "0"@ {
        CommandView::ThinkingOff
    } else if unsigned_of(args) is Some && unsigned_of(args)->0 <= u32::MAX {
        CommandView::Thinking(unsigned_of(args)->0 as int)
    } else {
        CommandView::ThinkingUsage
    }
}

/// The command of a text behind the slash.
pub open spec fn slash_command(s: Seq<char>) -> CommandView {
    let word = until_white(s);
    let args = command_args(s);
    if word == "quit"@ || word == "exit"@ {
        CommandView::Quit
    } else if word == "clear"@ {
        CommandView::Clear
    } else if word == "help"@ {
        CommandView::Help
    } else if word == "session"@ {
        CommandView::ShowSession
    } else if word == "model"@ {
        if args.len() == 0 {
            CommandView::ShowModel
        } else {
            CommandView::Model(args)
        }
    } else if word == "think"@ {
        thinking_command(args)
    } else {
        CommandView::Unknown(word)
    }
}

/// What a line asks for.
pub open spec fn command_of(line: Seq<char>) -> CommandView {
    let text = trimmed(line);
    if text.len() == 0 {
        CommandView::Nothing
    } else if text[0] == '/' {
        slash_command(text.skip(1))
    } else {
        CommandView::Message(text)
    }
}

fn parse_thinking(args: &str) -> (r: ReplCommand)
    ensures
        r@ == thinking_command(args@),
{
    if args.unicode_len() == 0 {
        ReplCommand::ShowThinking
    } else if str_eq(args, "off") || str_eq(args, "0") {
        ReplCommand::ThinkingOff
    } else {
        match parse_unsigned(args) {
            Some(n) => if n <= u32::MAX as u64 {
                ReplCommand::Thinking(n as u32)
            } else {
                ReplCommand::ThinkingUsage
            },
            None => ReplCommand::ThinkingUsage,
        }
    }
}

fn parse_slash(s: &str) -> (r: ReplCommand)
    ensures
        r@ == slash_command(s@),
{
    let v = chars_of(s);
    let end: usize = find_white(&v, 0);
    let word = string_of(&v, 0, end);
    assert(v@.skip(0) =~= v@);
    let rest = if end < v.len() {
        let rest = string_of(&v, end + 1, v.len());
        assert(rest@ =~= s@.skip(end + 1));
        rest
    } else {
        String::new()
    };
    let args = if end < v.len() {
        rest.as_str().trim()
    } else {
        rest.as_str()
    };
    assert(args@ =~= command_args(s@));
    let word = word.as_str();
    if str_eq(word, "quit") || str_eq(word, "exit") {
        ReplCommand::Quit
    } else if str_eq(word, "clear") {
        ReplCommand::Clear
    } else if str_eq(word, "help") {
        ReplCommand::Help
    } else if str_eq(word, "session") {
        ReplCommand::ShowSession
    } else if str_eq(word, "model") {
        if args.unicode_len() == 0 {
            ReplCommand::ShowModel
        } else {
            ReplCommand::Model(args.to_owned())
        }
    } else if str_eq(word, "think") {
        parse_thinking(args)
    } else {
        ReplCommand::Unknown(word.to_owned())
    }
}

/// What a line of the user asks for.
pub fn parse_line(line: &str) -> (r: ReplCommand)
    ensures
        r@ == command_of(line@),
{
    let text = line.trim();
    if text.unicode_len() == 0 {
        return ReplCommand::Nothing;
    }
    proof {
        reveal_strlit("/");
    }
    match strip_prefix(text, "/") {
        Some(rest) => {
            assert(text@[0] == '/');
            assert(rest@ =~= text@.skip(1));
            parse_slash(rest)
        },
        None => {
            assert(text@[0] != '/') by {
                if text@[0] == '/' {
                    assert(text@.take(1) =~= "/"@);
                    assert("/"@.is_prefix_of(text@));
                }
            }
            ReplCommand::Message(text.to_owned())
        },
    }
}

/// The settings of the chat, as the commands change them.
pub struct ReplConfig {
    pub agent_id: Option<AgentId>,
    pub session_key: Option<SessionKey>,
    pub model_id: Option<String>,
    pub thinking_budget: Option<u32>,
}

/// True when `after` are the settings once a command was given.
pub open spec fn performed(before: ReplConfig, command: CommandView, after: ReplConfig) -> bool {
    &&& after.agent_id == before.agent_id
    &&& after.session_key == if command is Clear {
        None
    } else {
        before.session_key
    }
    &&& after.model_id.deep_view() == match command {
        CommandView::Model(id) => Some(id),
        _ => before.model_id.deep_view(),
    }
    &&& match command {
        CommandView::Thinking(n) => after.thinking_budget is Some && after.thinking_budget->0 == n,
        CommandView::ThinkingOff => after.thinking_budget is None,
        _ => after.thinking_budget == before.thinking_budget,
    }
}

/// What came of asking for a line.
#[derive(Debug)]
pub enum InputEvent {
    Line(String),
    /// Ctrl-C.
    Interrupted,
    /// Ctrl-D.
    EndOfInput,
    Failed(String),
}

/// What to do with it.
#[derive(Debug)]
pub enum InputStep {
    /// Answer a command.
    Answer(ReplCommand),
    /// Say goodbye and leave.
    Leave,
    /// Report an error and leave.
    Fail(String),
}

impl ReplConfig {
    /// Takes what came of asking for a line. The chat ends on `/quit` and
    /// `/exit`, on Ctrl-C and Ctrl-D and where no line could be read, and on
    /// nothing else; any other line is a command, and is done to the settings.
    pub fn on_input(&mut self, event: InputEvent) -> (r: InputStep)
        ensures
            match event {
                InputEvent::Line(line) => if command_of(line@) is Quit {
                    r is Leave && *final(self) == *old(self)
                } else {
                    r is Answer && r->Answer_0@ == command_of(line@) && performed(
                        *old(self),
                        command_of(line@),
                        *final(self),
                    )
                },
                InputEvent::Interrupted => r is Leave && *final(self) == *old(self),
                InputEvent::EndOfInput => r is Leave && *final(self) == *old(self),
                InputEvent::Failed(err) => r == InputStep::Fail(err) && *final(self) == *old(self),
            },
    {
        match event {
            InputEvent::Line(line) => {
                let command = parse_line(line.as_str());
                match command {
                    ReplCommand::Quit => InputStep::Leave,
                    _ => {
                        self.perform(&command);
                        InputStep::Answer(command)
                    },
                }
            },
            InputEvent::Interrupted => InputStep::Leave,
            InputEvent::EndOfInput => InputStep::Leave,
            InputEvent::Failed(err) => InputStep::Fail(err),
        }
    }

    /// The prompt before a line: it says whether a session has begun.
    pub fn prompt(&self) -> (r: &'static str)
        ensures
            r@ == if self.session_key is Some {
                "you> "@
            } else {
                "you (new)> "@
            },
    {
        match self.session_key {
            Some(_) => "you> ",
            None => "you (new)> ",
        }
    }

    /// Does what a command says to the settings.
    pub fn perform(&mut self, command: &ReplCommand)
        ensures
            performed(*old(self), command@, *final(self)),
    {
        match command {
            ReplCommand::Clear => {
                self.session_key = None;
            },
            ReplCommand::Model(id) => {
                self.model_id = Some(id.clone());
            },
            ReplCommand::ThinkingOff => {
                self.thinking_budget = None;
            },
            ReplCommand::Thinking(n) => {
                self.thinking_budget = Some(*n);
            },
            _ => {},
        }
    }

    /// The turn for the model, with the settings as they are.
    pub fn request(&self, message: &str) -> (r: ChatRequest)
        ensures
            r.agent_id == self.agent_id,
            r.session_key == self.session_key,
            r.message@ == message@,
            r.model_id.deep_view() == self.model_id.deep_view(),
            r.thinking_budget == self.thinking_budget,
            r.attachments@.len() == 0,
            r.max_tokens is None,
            r.temperature is None,
            r.channel_id is None,
            r.channel_capabilities is None,
    {
        let agent_id = match &self.agent_id {
            Some(id) => Some(id.clone()),
            None => None,
        };
        let session_key = match &self.session_key {
            Some(key) => Some(key.clone()),
            None => None,
        };
        let mut r = ChatRequest::plain(agent_id, session_key, message.to_owned());
        r.model_id = clone_text(&self.model_id);
        r.thinking_budget = self.thinking_budget;
        r
    }

    /// Takes over the session of an answer, and gives what is left to print: the
    /// answer itself where none of it was streamed, then the model and the
    /// tokens.
    pub fn answered(
        &mut self,
        response: ChatResponse,
        got_text: bool,
        input_tokens: u32,
        output_tokens: u32,
    ) -> (r: String)
        ensures
            final(self).agent_id == old(self).agent_id,
            final(self).session_key == Some(response.session_key),
            final(self).model_id == old(self).model_id,
            final(self).thinking_budget == old(self).thinking_budget,
            r@ == answer_text(
                response.content@,
                response.model_id@,
                got_text,
                input_tokens as nat,
                output_tokens as nat,
            ),
    {
        let shown = if got_text {
            String::new()
        } else {
            crate::text::cat3("\nassistant> ", response.content.as_str(), "\n")
        };
        let tokens = cat5(
            ": ",
            decimal_of(input_tokens as u64).as_str(),
            " in / ",
            decimal_of(output_tokens as u64).as_str(),
            " out]\n",
        );
        let line = crate::text::cat3("\n[", response.model_id.as_str(), tokens.as_str());
        let r = cat2(shown.as_str(), line.as_str());
        self.session_key = Some(response.session_key);
        proof {
            let content = if got_text {
                Seq::empty()
            } else {
                "\nassistant> "@ + response.content@ + "\n"@
            };
            assert(shown@ =~= content);
        }
        r
    }
}

/// What is printed of an answer once it is complete.
pub open spec fn answer_text(
    content: Seq<char>,
    model: Seq<char>,
    got_text: bool,
    input: nat,
    output: nat,
) -> Seq<char> {
    let shown = if got_text {
        Seq::empty()
    } else {
        "\nassistant> "@ + content + "\n"@
    };
    shown + ("\n["@ + model + (": "@ + decimal(input) + " in / "@ + decimal(output) + " out]\n"@))
}

/// What to do with a piece of an answer.
#[derive(Debug)]
pub enum DeltaStep {
    /// Print this.
    Print(String),
    /// Print this error, and read no further.
    Fail(String),
    /// Read no further.
    Finish,
    /// Nothing is shown of it.
    Skip,
}

/// What to do with a piece of an answer. `got_text` tells whether any text was
/// printed.
pub fn on_delta(delta: StreamDelta, got_text: &mut bool) -> (r: DeltaStep)
    ensures
        match delta {
            StreamDelta::Text(text) => r == DeltaStep::Print(text),
            StreamDelta::Error(text) => r == DeltaStep::Fail(text),
            StreamDelta::Done { .. } => r is Finish,
            _ => r is Skip,
        },
        *final(got_text) == (*old(got_text) || delta is Text),
{
    match delta {
        StreamDelta::Text(text) => {
            *got_text = true;
            DeltaStep::Print(text)
        },
        StreamDelta::Error(text) => DeltaStep::Fail(text),
        StreamDelta::Done { .. } => DeltaStep::Finish,
        _ => DeltaStep::Skip,
    }
}

/// A command offered for completion is one of the commands, and goes on from
/// what was typed.
pub proof fn law_completions_complete(names: Seq<Seq<char>>, prefix: Seq<char>, name: Seq<char>)
    ensures
        completions(names, prefix).contains(name) <==> names.contains(name)
            && prefix.is_prefix_of(name),
    decreases names.len(),
{
    if names.len() > 0 {
        let front = names.drop_last();
        law_completions_complete(front, prefix, name);
        let before = completions(front, prefix);
        if prefix.is_prefix_of(names.last()) {
            let all = before.push(names.last());
            if before.contains(name) {
                let i = choose|i: int| 0 <= i < before.len() && before[i] == name;
                assert(all[i] == name);
            }
            if name == names.last() {
                assert(all[before.len() as int] == name);
            }
            if all.contains(name) && name != names.last() {
                let i = choose|i: int| 0 <= i < all.len() && all[i] == name;
                assert(before[i] == name);
            }
        }
        if front.contains(name) {
            let i = choose|i: int| 0 <= i < front.len() && front[i] == name;
            assert(names[i] == name);
        }
        if names.contains(name) {
            let i = choose|i: int| 0 <= i < names.len() && names[i] == name;
            if i < front.len() {
                assert(front[i] == name);
            }
        }
    }
}

} // verus!

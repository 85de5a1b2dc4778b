//! The interactive chat: what a line asks for, and what is then asked of the
//! model.

use crate::cli::repl::{
    complete, law_completions_complete, on_delta, parse_line, slash_commands, DeltaStep, InputEvent,
    InputStep, ReplCommand, ReplConfig,
};
use crate::gateway::chat::{ChatRequest, ChatResponse, StreamDelta};
use crate::laws::terms::stands_in;
use crate::text::{decimal, is_blank, is_white, trimmed, unsigned_of, until_white};
use crate::types::{cut, lemma_cut};
use vstd::prelude::*;

verus! {

proof fn lemma_word(word: Seq<char>, tail: Seq<char>)
    requires
        forall|i: int| 0 <= i < word.len() ==> !is_white(#[trigger] word[i]),
        tail.len() > 0 ==> is_white(tail[0]),
    ensures
        until_white(word + tail) == word,
    decreases word.len(),
{
    let s = word + tail;
    if word.len() > 0 {
        let rest = word.drop_first();
        assert(s[0] == word[0]);
        assert(!is_white(word[0]));
        assert forall|i: int| 0 <= i < rest.len() implies !is_white(#[trigger] rest[i]) by {
            assert(rest[i] == word[i + 1]);
        }
        lemma_word(rest, tail);
        assert(s.drop_first() =~= rest + tail);
        assert(seq![s[0]] + rest =~= word);
    } else {
        assert(s =~= tail);
        assert(word =~= Seq::empty());
    }
}

/// A line without a slash is something to say to the model, trimmed; a line of
/// white space is nothing.
pub proof fn law_plain_lines(line: &str, r: ReplCommand)
    requires
        call_ensures(parse_line, (line,), r),
    ensures
        r is Nothing <==> is_blank(line@),
        r is Message <==> !is_blank(line@) && trimmed(line@)[0] != '/',
        r is Message ==> r->Message_0@ == trimmed(line@),
{
}

/// A line that begins with a slash is the command of its first word, with the
/// rest of the line for its argument.
pub proof fn law_commands(line: &str, word: Seq<char>, tail: Seq<char>, r: ReplCommand)
    requires
        call_ensures(parse_line, (line,), r),
        trimmed(line@) == seq!['/'] + (word + tail),
        forall|i: int| 0 <= i < word.len() ==> !is_white(#[trigger] word[i]),
        tail.len() > 0 ==> is_white(tail[0]),
    ensures
        ({
            let args = trimmed(tail.skip(1));
            let given = tail.len() > 0 && args.len() > 0;
            let off = args == "off"@ || args == "0"@;
            &&& r is Quit <==> word == "quit"@ || word == "exit"@
            &&& r is Clear <==> word == "clear"@
            &&& r is Help <==> word == "help"@
            &&& r is ShowSession <==> word == "session"@
            &&& r is ShowModel <==> word == "model"@ && !given
            &&& r is Model <==> word == "model"@ && given
            &&& r is Model ==> r->Model_0@ == args
            &&& r is ShowThinking <==> word == "think"@ && !given
            &&& r is ThinkingOff <==> word == "think"@ && given && off
            &&& r is Thinking <==> word == "think"@ && given && !off && unsigned_of(args) is Some
                && unsigned_of(args)->0 <= u32::MAX
            &&& r is Thinking ==> r->Thinking_0 == unsigned_of(args)->0
            &&& r is Unknown ==> r->Unknown_0@ == word
            &&& word != "quit"@ && word != "exit"@ && word != "clear"@ && word != "help"@ && word
                != "session"@ && word != "model"@ && word != "think"@ ==> r is Unknown
        }),
{
    reveal_strlit("quit");
    reveal_strlit("exit");
    reveal_strlit("clear");
    reveal_strlit("help");
    reveal_strlit("session");
    reveal_strlit("model");
    reveal_strlit("think");
    assert("quit"@.len() == 4 && "quit"@[0] == 'q');
    assert("exit"@.len() == 4 && "exit"@[0] == 'e');
    assert("clear"@.len() == 5 && "clear"@[0] == 'c');
    assert("help"@.len() == 4 && "help"@[0] == 'h');
    assert("session"@.len() == 7);
    assert("model"@.len() == 5 && "model"@[0] == 'm');
    assert("think"@.len() == 5 && "think"@[0] == 't');
    let text = trimmed(line@);
    assert(text.len() > 0 && text[0] == '/');
    let s = text.skip(1);
    assert(s =~= word + tail);
    lemma_word(word, tail);
    if tail.len() > 0 {
        assert(s.skip(word.len() as int + 1) =~= tail.skip(1));
    }
}

/// A command changes the setting that it names and no other.
pub proof fn law_settings(config: &mut ReplConfig, command: &ReplCommand)
    requires
        call_ensures(ReplConfig::perform, (config, command), ()),
    ensures
        final(config).agent_id == old(config).agent_id,
        command is Clear ==> final(config).session_key is None,
        !(command is Clear) ==> final(config).session_key == old(config).session_key,
        command is Model ==> final(config).model_id is Some && final(config).model_id->0@
            == command->Model_0@,
        !(command is Model) ==> final(config).model_id.deep_view()
            == old(config).model_id.deep_view(),
        command is Thinking ==> final(config).thinking_budget == Some(command->Thinking_0),
        command is ThinkingOff ==> final(config).thinking_budget is None,
        !(command is Thinking) && !(command is ThinkingOff) ==> final(config).thinking_budget
            == old(config).thinking_budget,
{
}

/// The chat goes on until the user leaves: by a command, by a key, or where no
/// line can be read. Any other line is answered as the command that it is.
pub proof fn law_input(
    config: &mut ReplConfig,
    event: InputEvent,
    line: &str,
    command: ReplCommand,
    straight: &mut ReplConfig,
    r: InputStep,
)
    requires
        call_ensures(ReplConfig::on_input, (config, event), r),
        event is Line ==> line@ == event->Line_0@,
        call_ensures(parse_line, (line,), command),
        *old(straight) == *old(config),
        call_ensures(ReplConfig::perform, (straight, &command), ()),
    ensures
        event is Line ==> (r is Leave <==> command is Quit),
        event is Line && !(command is Quit) ==> r is Answer && r->Answer_0@ == command@,
        event is Line && !(command is Quit) ==> final(config).session_key
            == final(straight).session_key && final(config).model_id.deep_view()
            == final(straight).model_id.deep_view() && final(config).thinking_budget
            == final(straight).thinking_budget,
        event is Interrupted || event is EndOfInput ==> r is Leave && *final(config)
            == *old(config),
        event is Failed ==> r is Fail && r->Fail_0 == event->Failed_0 && *final(config)
            == *old(config),
{
}

/// The model is asked what the user says, in the session and with the settings
/// as they are.
pub proof fn law_what_is_asked(
    config: &ReplConfig,
    message: &str,
    r: ChatRequest,
    prompt: &'static str,
)
    requires
        call_ensures(ReplConfig::request, (config, message), r),
        call_ensures(ReplConfig::prompt, (config,), prompt),
    ensures
        r.message@ == message@,
        r.session_key == config.session_key,
        r.agent_id == config.agent_id,
        r.model_id.deep_view() == config.model_id.deep_view(),
        r.thinking_budget == config.thinking_budget,
        config.session_key is Some ==> prompt@ == "you> "@,
        config.session_key is None ==> prompt@ == "you (new)> "@,
{
}

/// The session of an answer is the one that the next question goes to; the
/// answer is shown where it was not shown yet, with its model and its tokens.
pub proof fn law_what_is_answered(
    config: &mut ReplConfig,
    response: ChatResponse,
    got_text: bool,
    input: u32,
    output: u32,
    r: String,
    after: &ReplConfig,
    message: &str,
    next: ChatRequest,
)
    requires
        call_ensures(ReplConfig::answered, (config, response, got_text, input, output), r),
        *after == *final(config),
        call_ensures(ReplConfig::request, (after, message), next),
    ensures
        next.session_key == Some(response.session_key),
        next.agent_id == old(config).agent_id,
        next.model_id.deep_view() == old(config).model_id.deep_view(),
        !got_text ==> stands_in(response.content@, r@),
        stands_in(response.model_id@, r@),
        stands_in(decimal(input as nat) + " in / "@ + decimal(output as nat), r@),
{
    let model = response.model_id@;
    let tokens = decimal(input as nat) + " in / "@ + decimal(output as nat);
    let shown = if got_text {
        Seq::empty()
    } else {
        "\nassistant> "@ + response.content@ + "\n"@
    };
    let count = ": "@ + decimal(input as nat) + " in / "@ + decimal(output as nat) + " out]\n"@;
    assert(r@ == shown + ("\n["@ + model + count));
    assert(r@ =~= ((shown + "\n["@) + model) + count);
    assert(r@ =~= ((shown + "\n["@ + model + ": "@) + tokens) + " out]\n"@);
    if !got_text {
        assert(r@ =~= ("\nassistant> "@ + response.content@) + ("\n"@ + ("\n["@ + model + count)));
    }
}

/// A piece of text is printed, an error is told, and the end ends it; nothing is
/// shown of tools.
pub proof fn law_pieces(delta: StreamDelta, got_text: &mut bool, r: DeltaStep)
    requires
        call_ensures(on_delta, (delta, got_text), r),
    ensures
        r is Print <==> delta is Text,
        r is Print ==> r->Print_0@ == delta->Text_0@,
        r is Fail <==> delta is Error,
        r is Fail ==> r->Fail_0@ == delta->Error_0@,
        r is Finish <==> delta is Done,
        *final(got_text) == (*old(got_text) || delta is Text),
{
}

/// The commands that are offered are those that begin with what was typed, and
/// all of them; nothing is offered where no slash was typed.
pub proof fn law_what_is_offered(
    line: &str,
    pos: usize,
    k: int,
    commands: Vec<(&'static str, &'static str)>,
    r: (usize, Vec<String>),
)
    requires
        call_ensures(complete, (line, pos), r),
        call_ensures(slash_commands, (), commands),
        0 <= k < commands@.len(),
    ensures
        !"/"@.is_prefix_of(line@) ==> r.1@.len() == 0,
        "/"@.is_prefix_of(line@) ==> r.0 == 0,
        "/"@.is_prefix_of(line@) && cut(line@, pos as int).is_prefix_of(commands@[k].0@)
            ==> exists|j: int| 0 <= j < r.1@.len() && (#[trigger] r.1@[j])@ == commands@[k].0@,
        "/"@.is_prefix_of(line@) && !cut(line@, pos as int).is_prefix_of(commands@[k].0@)
            ==> forall|j: int| 0 <= j < r.1@.len() ==> (#[trigger] r.1@[j])@ != commands@[k].0@,
{
    lemma_cut(line@, pos as int);
    let names = crate::cli::repl::command_names();
    let prefix = cut(line@, pos as int);
    let view = r.1.deep_view();
    assert(view.len() == r.1@.len());
    let pairs = commands@.map_values(|c: (&'static str, &'static str)| (c.0@, c.1@));
    assert(pairs[k] == crate::cli::repl::command_list()[k]);
    let name = commands@[k].0@;
    assert(names[k] == name);
    assert(names.contains(name));
    if "/"@.is_prefix_of(line@) {
        law_completions_complete(names, prefix, name);
        if prefix.is_prefix_of(name) {
            let j = choose|j: int| 0 <= j < view.len() && view[j] == name;
            assert(r.1@[j]@ == view[j]);
        } else {
            assert forall|j: int| 0 <= j < r.1@.len() implies (#[trigger] r.1@[j])@ != name by {
                assert(view[j] == r.1@[j]@);
                assert(view.contains(view[j]));
            }
        }
    }
}

} // verus!

//! Speaking chat lines aloud: which voice speaks, what it says, how the recording
//! is named and treated, and what is shown on screen meanwhile.

use crate::event::{
    text_view, ElevenLabsRequest, ElevenLabsRequestView, Event, EventView, TransformOBSTextRequest,
    TransformOBSTextRequestView,
};
use crate::text::{
    byte_len, chars_of, contains, decimal, decimal_of, has, join, join_from, last_index_of,
    longer_than, lowercase, remove_all, rfind, same, split_words, string_of, to_lower, utf8_width,
    views, width_of, without, words,
};
use rand::Rng;
use vstd::prelude::*;

verus! {

/// The name of a recording: the time it was made, who spoke, and in which voice.
pub open spec fn chat_filename(timestamp: int, username: Seq<char>, voice: Seq<char>) -> Seq<
    char,
> {
    decimal(timestamp) + "_"@ + username + "_"@ + voice
}

/// The name of the recording of a chat line spoken at `timestamp`, in seconds
/// since the epoch, by `username` in `voice`.
pub fn twitch_chat_filename(timestamp: i64, username: String, voice: String) -> (name: String)
    ensures
        name@ == chat_filename(timestamp as int, username@, voice@),
{
    let mut name = decimal_of(timestamp);
    name.append("_");
    name.append(username.as_str());
    name.append("_");
    name.append(voice.as_str());
    name
}

/// `text` from a character that stands `offset` bytes into the whole, with line
/// breaks put in: a space that stands more than `limit` bytes in becomes a line
/// break, and the next one is due 20 bytes later than this one was.
pub open spec fn chop(text: Seq<char>, offset: nat, limit: nat) -> Seq<char>
    decreases text.len(),
{
    if text.len() == 0 {
        Seq::<char>::empty()
    } else if text[0] == ' ' && offset > limit {
        seq!['\n'] + chop(text.skip(1), offset + 1, limit + 20)
    } else {
        seq![text[0]] + chop(text.skip(1), offset + utf8_width(text[0]), limit)
    }
}

/// `text` broken into lines for a speech bubble: the first space behind byte 20
/// becomes a line break, then the first space behind byte 40, and so on.
pub open spec fn chopped(text: Seq<char>) -> Seq<char> {
    chop(text, 0, 20)
}

/// Breaks a text into lines for a speech bubble. Only spaces are replaced, each by
/// one line break, so the text keeps its length.
pub fn chop_text(starting_text: String) -> (seal_text: String)
    ensures
        seal_text@ == chopped(starting_text@),
        seal_text@.len() == starting_text@.len(),
{
    let chars = chars_of(starting_text.as_str());
    let mut out: Vec<char> = Vec::new();
    let mut offset: u128 = 0;
    let mut limit: u128 = 20;
    let mut i: usize = 0;
    assert(chars@.skip(0) =~= chars@);
    assert(out@ + chopped(chars@) =~= chopped(chars@));
    while i < chars.len()
        invariant
            i <= chars@.len(),
            out@.len() == i,
            offset <= 4 * i,
            limit <= 4 * i + 20,
            out@ + chop(chars@.skip(i as int), offset as nat, limit as nat) == chopped(chars@),
        decreases chars@.len() - i,
    {
        let c = chars[i];
        let ghost here = chars@.skip(i as int);
        let ghost so_far = out@;
        proof {
            assert(here[0] == c);
            assert(here.skip(1) =~= chars@.skip(i + 1));
        }
        if c == ' ' && offset > limit {
            out.push('\n');
            offset = offset + 1;
            limit = limit + 20;
            assert(out@ + chop(chars@.skip(i + 1), offset as nat, limit as nat) =~= so_far + chop(
                here,
                (offset - 1) as nat,
                (limit - 20) as nat,
            ));
        } else {
            out.push(c);
            let width = width_of(c) as u128;
            assert(out@ + chop(chars@.skip(i + 1), (offset + width) as nat, limit as nat) =~= so_far
                + chop(here, offset as nat, limit as nat));
            offset = offset + width;
        }
        i = i + 1;
    }
    assert(out@ + chop(chars@.skip(i as int), offset as nat, limit as nat) =~= out@);
    string_of(&out)
}

/// What is spoken in place of a word: a word with a link in it is named as such,
/// and a word of more than 50 bytes is not spelled out.
pub open spec fn spoken_word(word: Seq<char>) -> Seq<char> {
    if contains(word, "http"@) {
        "U.R.L"@
    } else if byte_len(word) > 50 {
        "long word"@
    } else {
        word
    }
}

/// What is spoken of a chat line: its words, each as `spoken_word` has it, with one
/// space between each two.
pub open spec fn sanitized(raw: Seq<char>) -> Seq<char> {
    join(words(raw).map_values(|w: Seq<char>| spoken_word(w)), " "@)
}

/// What is spoken of a chat line.
pub fn sanitize_chat_message(raw_msg: String) -> (spoken: String)
    ensures
        spoken@ == sanitized(raw_msg@),
{
    let pieces = split_words(raw_msg.as_str());
    let http = chars_of("http");
    let mut spoken_words: Vec<String> = Vec::new();
    let mut i: usize = 0;
    while i < pieces.len()
        invariant
            i <= pieces@.len(),
            http@ == "http"@,
            views(spoken_words@) == views(pieces@).take(i as int).map_values(
                |w: Seq<char>| spoken_word(w),
            ),
        decreases pieces@.len() - i,
    {
        let word = chars_of(pieces[i].as_str());
        let ghost before = views(spoken_words@);
        if has(&word, &http) {
            spoken_words.push(String::from_str("U.R.L"));
        } else if longer_than(&word, 50) {
            spoken_words.push(String::from_str("long word"));
        } else {
            spoken_words.push(string_of(&word));
        }
        assert(views(spoken_words@) =~= before.push(spoken_word(word@)));
        assert(views(spoken_words@) =~= views(pieces@).take(i + 1).map_values(
            |w: Seq<char>| spoken_word(w),
        ));
        i = i + 1;
    }
    assert(views(pieces@).take(i as int) =~= views(pieces@));
    let spoken = join_from(&spoken_words, 0, " ");
    assert(views(spoken_words@).skip(0) =~= views(spoken_words@));
    spoken
}

/// `path` with `postfix` put in front of its extension: in front of its last
/// dot. A path without a dot stays as it is.
pub open spec fn with_postfix(path: Seq<char>, postfix: Seq<char>) -> Seq<char> {
    match last_index_of(path, '.') {
        Some(dot) => path.take(dot) + postfix + path.skip(dot),
        None => path,
    }
}

/// `filepath` with `postfix` put in front of its extension.
pub fn add_postfix_to_filepath(filepath: String, postfix: String) -> (path: String)
    ensures
        path@ == with_postfix(filepath@, postfix@),
{
    let chars = chars_of(filepath.as_str());
    match rfind(&chars, '.') {
        Some(dot) => {
            let mut out: Vec<char> = Vec::new();
            let mut i: usize = 0;
            while i < dot
                invariant
                    i <= dot < chars@.len(),
                    out@ == chars@.take(i as int),
                decreases dot - i,
            {
                out.push(chars[i]);
                assert(out@ =~= chars@.take(i + 1));
                i = i + 1;
            }
            let mut path = string_of(&out);
            path.append(postfix.as_str());
            let mut rest: Vec<char> = Vec::new();
            let mut j: usize = dot;
            while j < chars.len()
                invariant
                    dot <= j <= chars@.len(),
                    rest@ == chars@.subrange(dot as int, j as int),
                decreases chars@.len() - j,
            {
                rest.push(chars[j]);
                assert(rest@ =~= chars@.subrange(dot as int, j + 1));
                j = j + 1;
            }
            assert(rest@ =~= chars@.skip(dot as int));
            let rest = string_of(&rest);
            path.append(rest.as_str());
            path
        },
        None => filepath,
    }
}

/// A command line for a sound tool, and the file that it writes.
#[derive(Debug, Clone)]
pub struct AudioCommand {
    pub program: String,
    pub args: Vec<String>,
    pub output: String,
}

pub struct AudioCommandView {
    pub program: Seq<char>,
    pub args: Seq<Seq<char>>,
    pub output: Seq<char>,
}

impl View for AudioCommand {
    type V = AudioCommandView;

    open spec fn view(&self) -> AudioCommandView {
        AudioCommandView { program: self.program@, args: views(self.args@), output: self.output@ }
    }
}

/// One treatment of a recording.
#[derive(Debug, Clone)]
pub enum AudioStep {
    /// Bring the recording into the form that the other treatments read.
    Normalize,
    Reverb,
    Stretch(String),
    Pitch(String),
}

pub enum AudioStepView {
    Normalize,
    Reverb,
    Stretch(Seq<char>),
    Pitch(Seq<char>),
}

impl View for AudioStep {
    type V = AudioStepView;

    open spec fn view(&self) -> AudioStepView {
        match *self {
            AudioStep::Normalize => AudioStepView::Normalize,
            AudioStep::Reverb => AudioStepView::Reverb,
            AudioStep::Stretch(factor) => AudioStepView::Stretch(factor@),
            AudioStep::Pitch(cents) => AudioStepView::Pitch(cents@),
        }
    }
}

/// The views of a list of treatments.
pub open spec fn step_views(steps: Seq<AudioStep>) -> Seq<AudioStepView> {
    Seq::new(steps.len(), |i: int| steps[i]@)
}

/// What a treatment puts in front of the extension of the file it writes.
pub open spec fn step_postfix(step: AudioStepView) -> Seq<char> {
    match step {
        AudioStepView::Normalize => "_norm"@,
        AudioStepView::Reverb => "_reverb"@,
        AudioStepView::Stretch(_) => "_stretch"@,
        AudioStepView::Pitch(cents) => "_pitch"@ + "_"@ + cents,
    }
}

/// The command line that applies `step` to the recording at `path`.
pub open spec fn step_command(step: AudioStepView, path: Seq<char>) -> AudioCommandView {
    let output = with_postfix(path, step_postfix(step));
    match step {
        AudioStepView::Normalize => AudioCommandView {
            program: "ffmpeg"@,
            args: seq!["-i"@, path, output],
            output,
        },
        AudioStepView::Reverb => AudioCommandView {
            program: "sox"@,
            args: seq![
                "-t"@,
                "wav"@,
                path,
                output,
                "gain"@,
                "-2"@,
                "reverb"@,
                "70"@,
                "100"@,
                "50"@,
                "100"@,
                "10"@,
                "2"@,
            ],
            output,
        },
        AudioStepView::Stretch(factor) => AudioCommandView {
            program: "sox"@,
            args: seq!["-t"@, "wav"@, path, output, "stretch"@, factor],
            output,
        },
        AudioStepView::Pitch(cents) => AudioCommandView {
            program: "sox"@,
            args: seq!["-t"@, "wav"@, path, output, "pitch"@, cents],
            output,
        },
    }
}

/// The command line that applies `step` to the recording at `path`.
pub fn command_for(step: &AudioStep, path: &str) -> (command: AudioCommand)
    ensures
        command@ == step_command(step@, path@),
{
    let source = String::from_str(path);
    let mut args: Vec<String> = Vec::new();
    match step {
        AudioStep::Normalize => {
            let output = add_postfix_to_filepath(source.clone(), String::from_str("_norm"));
            args.push(String::from_str("-i"));
            args.push(source);
            args.push(output.clone());
            let command = AudioCommand { program: String::from_str("ffmpeg"), args, output };
            assert(command@.args =~= step_command(step@, path@).args);
            command
        },
        AudioStep::Reverb => {
            let output = add_postfix_to_filepath(source.clone(), String::from_str("_reverb"));
            args.push(String::from_str("-t"));
            args.push(String::from_str("wav"));
            args.push(source);
            args.push(output.clone());
            args.push(String::from_str("gain"));
            args.push(String::from_str("-2"));
            args.push(String::from_str("reverb"));
            args.push(String::from_str("70"));
            args.push(String::from_str("100"));
            args.push(String::from_str("50"));
            args.push(String::from_str("100"));
            args.push(String::from_str("10"));
            args.push(String::from_str("2"));
            let command = AudioCommand { program: String::from_str("sox"), args, output };
            assert(command@.args =~= step_command(step@, path@).args);
            command
        },
        AudioStep::Stretch(factor) => {
            let output = add_postfix_to_filepath(source.clone(), String::from_str("_stretch"));
            args.push(String::from_str("-t"));
            args.push(String::from_str("wav"));
            args.push(source);
            args.push(output.clone());
            args.push(String::from_str("stretch"));
            args.push(factor.clone());
            let command = AudioCommand { program: String::from_str("sox"), args, output };
            assert(command@.args =~= step_command(step@, path@).args);
            command
        },
        AudioStep::Pitch(cents) => {
            let mut postfix = String::from_str("_pitch");
            postfix.append("_");
            postfix.append(cents.as_str());
            let output = add_postfix_to_filepath(source.clone(), postfix);
            args.push(String::from_str("-t"));
            args.push(String::from_str("wav"));
            args.push(source);
            args.push(output.clone());
            args.push(String::from_str("pitch"));
            args.push(cents.clone());
            let command = AudioCommand { program: String::from_str("sox"), args, output };
            assert(command@.args =~= step_command(step@, path@).args);
            command
        },
    }
}

/// Where the recording is after `step` was tried on the one at `path`: a
/// normalizing that failed leaves it where it was, everything else is taken to
/// have written its file.
pub open spec fn path_after_step(step: AudioStepView, path: Seq<char>, succeeded: bool) -> Seq<
    char,
> {
    if step is Normalize && !succeeded {
        path
    } else {
        with_postfix(path, step_postfix(step))
    }
}

/// Where the recording is after `step` was tried on the one at `path` and
/// succeeded or not.
pub fn path_after(step: &AudioStep, path: String, succeeded: bool) -> (next: String)
    ensures
        next@ == path_after_step(step@, path@, succeeded),
{
    match step {
        AudioStep::Normalize => {
            if succeeded {
                command_for(step, path.as_str()).output
            } else {
                path
            }
        },
        _ => command_for(step, path.as_str()).output,
    }
}

/// The treatments of a recording, in the order in which they are applied: what the
/// request asks for, then what belongs to the voice. Every treatment but the
/// normalizing is preceded by one, and so is every group of them.
pub open spec fn effect_steps(
    reverb: bool,
    stretch: Option<Seq<char>>,
    pitch: Option<Seq<char>>,
    voice: Seq<char>,
) -> Seq<AudioStepView> {
    (if reverb {
        seq![AudioStepView::Normalize, AudioStepView::Reverb]
    } else {
        Seq::<AudioStepView>::empty()
    }) + (match stretch {
        Some(factor) => seq![AudioStepView::Normalize, AudioStepView::Stretch(factor)],
        None => Seq::<AudioStepView>::empty(),
    }) + (match pitch {
        Some(cents) => seq![AudioStepView::Normalize, AudioStepView::Pitch(cents)],
        None => Seq::<AudioStepView>::empty(),
    }) + (if voice == "evil_pokimane"@ {
        seq![AudioStepView::Normalize, AudioStepView::Pitch("-200"@), AudioStepView::Reverb]
    } else {
        Seq::<AudioStepView>::empty()
    }) + (if voice == "satan"@ {
        seq![AudioStepView::Normalize, AudioStepView::Pitch("-350"@), AudioStepView::Reverb]
    } else {
        Seq::<AudioStepView>::empty()
    }) + (if voice == "god"@ {
        seq![AudioStepView::Normalize, AudioStepView::Reverb]
    } else {
        Seq::<AudioStepView>::empty()
    })
}

/// The treatments of the recording of `request`, spoken in `voice`.
pub fn plan_effects(request: &ElevenLabsRequest, voice: &str) -> (steps: Vec<AudioStep>)
    ensures
        step_views(steps@) == effect_steps(
            request.reverb,
            text_view(request.stretch),
            text_view(request.pitch),
            voice@,
        ),
{
    let mut steps: Vec<AudioStep> = Vec::new();
    let ghost mut so_far = Seq::<AudioStepView>::empty();
    assert(step_views(steps@) =~= so_far);
    if request.reverb {
        steps.push(AudioStep::Normalize);
        steps.push(AudioStep::Reverb);
        proof {
            so_far = so_far + seq![AudioStepView::Normalize, AudioStepView::Reverb];
        }
    }
    assert(step_views(steps@) =~= so_far);
    match &request.stretch {
        Some(factor) => {
            steps.push(AudioStep::Normalize);
            steps.push(AudioStep::Stretch(factor.clone()));
            proof {
                so_far = so_far + seq![AudioStepView::Normalize, AudioStepView::Stretch(factor@)];
            }
        },
        None => {},
    }
    assert(step_views(steps@) =~= so_far);
    match &request.pitch {
        Some(cents) => {
            steps.push(AudioStep::Normalize);
            steps.push(AudioStep::Pitch(cents.clone()));
            proof {
                so_far = so_far + seq![AudioStepView::Normalize, AudioStepView::Pitch(cents@)];
            }
        },
        None => {},
    }
    assert(step_views(steps@) =~= so_far);
    if same(voice, "evil_pokimane") {
        steps.push(AudioStep::Normalize);
        steps.push(AudioStep::Pitch(String::from_str("-200")));
        steps.push(AudioStep::Reverb);
        proof {
            so_far = so_far + seq![
                AudioStepView::Normalize,
                AudioStepView::Pitch("-200"@),
                AudioStepView::Reverb,
            ];
        }
    }
    assert(step_views(steps@) =~= so_far);
    if same(voice, "satan") {
        steps.push(AudioStep::Normalize);
        steps.push(AudioStep::Pitch(String::from_str("-350")));
        steps.push(AudioStep::Reverb);
        proof {
            so_far = so_far + seq![
                AudioStepView::Normalize,
                AudioStepView::Pitch("-350"@),
                AudioStepView::Reverb,
            ];
        }
    }
    assert(step_views(steps@) =~= so_far);
    if same(voice, "god") {
        steps.push(AudioStep::Normalize);
        steps.push(AudioStep::Reverb);
        proof {
            so_far = so_far + seq![AudioStepView::Normalize, AudioStepView::Reverb];
        }
    }
    assert(step_views(steps@) =~= so_far);
    assert(so_far =~= effect_steps(
        request.reverb,
        text_view(request.stretch),
        text_view(request.pitch),
        voice@,
    ));
    steps
}

/// How loud a voice is played, in hundredths of full volume.
pub open spec fn volume_percent(voice: Seq<char>) -> u8 {
    if voice == "melkey"@ || voice == "beginbot"@ || voice == "evil_pokimane"@ {
        100
    } else if voice == "satan"@ || voice == "god"@ {
        70
    } else {
        50
    }
}

/// How loud `voice` is played, in hundredths of full volume.
pub fn voice_volume_percent(voice: &str) -> (percent: u8)
    ensures
        percent == volume_percent(voice@),
{
    if same(voice, "melkey") || same(voice, "beginbot") || same(voice, "evil_pokimane") {
        100
    } else if same(voice, "satan") || same(voice, "god") {
        70
    } else {
        50
    }
}

/// Whether a chat line is spoken at all: not an empty one, and not one that is a
/// command or addressed to somebody.
pub open spec fn is_spoken(message: Seq<char>) -> bool {
    message.len() > 0 && message[0] != '!' && message[0] != '@'
}

/// Whether `message` is spoken at all.
pub fn should_speak(message: &str) -> (spoken: bool)
    ensures
        spoken == is_spoken(message@),
{
    if message.unicode_len() == 0 {
        return false;
    }
    let first = message.get_char(0);
    first != '!' && first != '@'
}

/// The voice that speaks: the one that was asked for; else, while one voice is set
/// for everybody, that one; else the user's own; else the one for everybody. The
/// voice for everybody is `fallback` where none is on record.
pub open spec fn chosen_voice(
    requested: Option<Seq<char>>,
    global_enabled: bool,
    global_voice: Option<Seq<char>>,
    user_voice: Option<Seq<char>>,
    fallback: Seq<char>,
) -> Seq<char> {
    let global = match global_voice {
        Some(voice) => voice,
        None => fallback,
    };
    match requested {
        Some(voice) => voice,
        None => if global_enabled {
            global
        } else {
            match user_voice {
                Some(voice) => voice,
                None => global,
            }
        },
    }
}

/// The voice that speaks.
pub fn choose_voice(
    requested: Option<String>,
    global_enabled: bool,
    global_voice: Option<String>,
    user_voice: Option<String>,
    fallback: &str,
) -> (voice: String)
    ensures
        voice@ == chosen_voice(
            text_view(requested),
            global_enabled,
            text_view(global_voice),
            text_view(user_voice),
            fallback@,
        ),
{
    let global = match global_voice {
        Some(voice) => voice,
        None => String::from_str(fallback),
    };
    match requested {
        Some(voice) => voice,
        None => {
            if global_enabled {
                global
            } else {
                match user_voice {
                    Some(voice) => voice,
                    None => global,
                }
            }
        },
    }
}

/// A voice of the text-to-speech service.
#[derive(Debug, Clone)]
pub struct ElevenlabsVoice {
    pub voice_id: String,
    pub name: String,
}

/// The position of the first voice whose name is `name` but for upper and lower
/// case, or the number of voices when there is none.
pub open spec fn voice_position(names: Seq<Seq<char>>, name: Seq<char>) -> int
    decreases names.len(),
{
    if names.len() == 0 {
        0
    } else if lowercase(names[0]) == lowercase(name) {
        0
    } else {
        1 + voice_position(names.skip(1), name)
    }
}

/// The names of a list of voices.
pub open spec fn voice_names(voices: Seq<ElevenlabsVoice>) -> Seq<Seq<char>> {
    Seq::new(voices.len(), |i: int| voices[i].name@)
}

/// The position is within the list or just behind it.
pub proof fn lemma_voice_position_bounds(names: Seq<Seq<char>>, name: Seq<char>)
    ensures
        0 <= voice_position(names, name) <= names.len(),
        voice_position(names, name) < names.len() ==> lowercase(
            names[voice_position(names, name)],
        ) == lowercase(name),
        forall|i: int|
            0 <= i < voice_position(names, name) ==> lowercase(#[trigger] names[i]) != lowercase(
                name,
            ),
    decreases names.len(),
{
    if names.len() > 0 && lowercase(names[0]) != lowercase(name) {
        lemma_voice_position_bounds(names.skip(1), name);
        let p = voice_position(names.skip(1), name);
        assert forall|i: int| 0 <= i < 1 + p implies lowercase(#[trigger] names[i]) != lowercase(
            name,
        ) by {
            if i > 0 {
                assert(names.skip(1)[i - 1] == names[i]);
            }
        }
    }
}

/// The identifier and the name of the first voice that is called `name`, upper
/// and lower case aside.
pub fn find_voice_id_by_name(voices: &Vec<ElevenlabsVoice>, name: &str) -> (found: Option<
    (String, String),
>)
    ensures
        match found {
            Some((id, voice_name)) => {
                let at = voice_position(voice_names(voices@), name@);
                &&& 0 <= at < voices@.len()
                &&& id@ == voices@[at].voice_id@
                &&& voice_name@ == voices@[at].name@
                &&& lowercase(voices@[at].name@) == lowercase(name@)
                &&& forall|i: int|
                    0 <= i < at ==> lowercase((#[trigger] voices@[i]).name@) != lowercase(name@)
            },
            None => {
                &&& voice_position(voice_names(voices@), name@) == voices@.len()
                &&& forall|i: int|
                    0 <= i < voices@.len() ==> lowercase((#[trigger] voices@[i]).name@)
                        != lowercase(name@)
            },
        },
{
    let wanted = to_lower(name);
    let ghost names = voice_names(voices@);
    let mut i: usize = 0;
    assert(names.skip(0) =~= names);
    while i < voices.len()
        invariant
            i <= voices@.len(),
            names == voice_names(voices@),
            wanted@ == lowercase(name@),
            voice_position(names, name@) == i + voice_position(names.skip(i as int), name@),
        decreases voices@.len() - i,
    {
        let candidate = to_lower(voices[i].name.as_str());
        proof {
            assert(names.skip(i as int)[0] == voices@[i as int].name@);
            assert(names.skip(i as int).skip(1) =~= names.skip(i + 1));
        }
        if candidate == wanted {
            proof {
                lemma_first_voice(voices@, name@);
            }
            return Some((voices[i].voice_id.clone(), voices[i].name.clone()));
        }
        i = i + 1;
    }
    assert(names.skip(i as int).len() == 0);
    proof {
        lemma_first_voice(voices@, name@);
    }
    None
}

/// No voice in front of the position that was found has the name that is
/// looked for.
proof fn lemma_first_voice(voices: Seq<ElevenlabsVoice>, name: Seq<char>)
    ensures
        forall|i: int|
            0 <= i < voice_position(voice_names(voices), name) ==> lowercase(
                (#[trigger] voices[i]).name@,
            ) != lowercase(name),
        voice_position(voice_names(voices), name) < voices.len() ==> lowercase(
            voices[voice_position(voice_names(voices), name)].name@,
        ) == lowercase(name),
{
    lemma_voice_position_bounds(voice_names(voices), name);
    assert forall|i: int| 0 <= i < voice_position(voice_names(voices), name) implies lowercase(
        (#[trigger] voices[i]).name@,
    ) != lowercase(name) by {
        assert(voice_names(voices)[i] == voices[i].name@);
    }
}

/// A number below `bound`, drawn at random.
///
/// Trusted: this is `Rng::gen_range` of the crate `rand`, called with the range
/// from 0 up to and without `bound` on the generator of the current thread. It
/// panics on an empty range, which the precondition excludes, and returns a number
/// of the range. Which one is not said.
#[verifier::external_body]
pub(crate) fn random_below(bound: usize) -> (index: usize)
    requires
        bound > 0,
    ensures
        index < bound,
{
    rand::thread_rng().gen_range(0..bound)
}

/// The identifier and the name of the voice at `index`; none when there are not
/// that many voices.
pub fn voice_at(voices: &Vec<ElevenlabsVoice>, index: usize) -> (voice: Option<(String, String)>)
    ensures
        match voice {
            Some((id, name)) => index < voices@.len() && id@ == voices@[index as int].voice_id@
                && name@ == voices@[index as int].name@,
            None => index >= voices@.len(),
        },
{
    if index < voices.len() {
        Some((voices[index].voice_id.clone(), voices[index].name.clone()))
    } else {
        None
    }
}

/// The identifier and the name of one of the voices, drawn at random; none when
/// there is no voice to draw.
pub fn find_random_voice(voices: &Vec<ElevenlabsVoice>) -> (voice: Option<(String, String)>)
    ensures
        match voice {
            Some((id, name)) => exists|index: int|
                0 <= index < voices@.len() && id@ == (#[trigger] voices@[index]).voice_id@
                    && name@ == voices@[index].name@,
            None => voices@.len() == 0,
        },
{
    if voices.len() == 0 {
        return None;
    }
    let index = random_below(voices.len());
    voice_at(voices, index)
}

/// The word for a truth value.
pub open spec fn bool_text(value: bool) -> Seq<char> {
    if value {
        "true"@
    } else {
        "false"@
    }
}

/// The line shown on screen while a chat line is spoken: who speaks, whether one
/// voice is set for everybody, whether the voice was drawn at random, and the
/// name of the voice.
pub open spec fn onscreen_line(
    username: Seq<char>,
    global_enabled: bool,
    random: bool,
    voice_name: Seq<char>,
) -> Seq<char> {
    username + " | g: "@ + bool_text(global_enabled) + " | r: "@ + bool_text(random) + " | "@
        + voice_name
}

/// The line shown on screen while a chat line is spoken.
pub fn onscreen_message(username: &str, global_enabled: bool, random: bool, voice_name: &str) -> (line:
    String)
    ensures
        line@ == onscreen_line(username@, global_enabled, random, voice_name@),
{
    let mut line = String::from_str(username);
    line.append(" | g: ");
    line.append(
        if global_enabled {
            "true"
        } else {
            "false"
        },
    );
    line.append(" | r: ");
    line.append(
        if random {
            "true"
        } else {
            "false"
        },
    );
    line.append(" | ");
    line.append(voice_name);
    line
}

/// A copy of a text that may be absent.
pub fn clone_text(text: &Option<String>) -> (copy: Option<String>)
    ensures
        text_view(copy) == text_view(*text),
{
    match text {
        Some(t) => Some(t.clone()),
        None => None,
    }
}

/// What is known when a chat line is to be spoken.
#[derive(Debug, Clone)]
pub struct SpeechContext {
    /// The time in seconds since the epoch.
    pub timestamp: i64,
    /// Whether one voice is set for everybody.
    pub global_voice_enabled: bool,
    /// The voice for everybody, if one is on record.
    pub global_voice: Option<String>,
    /// The voice of the user who wrote the line, if one is on record.
    pub user_voice: Option<String>,
    /// The folder that recordings are written to.
    pub recordings_folder: String,
    /// The text source that shows who speaks.
    pub text_source: String,
}

pub struct SpeechContextView {
    pub timestamp: int,
    pub global_voice_enabled: bool,
    pub global_voice: Option<Seq<char>>,
    pub user_voice: Option<Seq<char>>,
    pub recordings_folder: Seq<char>,
    pub text_source: Seq<char>,
}

impl View for SpeechContext {
    type V = SpeechContextView;

    open spec fn view(&self) -> SpeechContextView {
        SpeechContextView {
            timestamp: self.timestamp as int,
            global_voice_enabled: self.global_voice_enabled,
            global_voice: text_view(self.global_voice),
            user_voice: text_view(self.user_voice),
            recordings_folder: self.recordings_folder@,
            text_source: self.text_source@,
        }
    }
}

/// Everything that is decided before a chat line is spoken.
#[derive(Debug, Clone)]
pub struct SpeechPlan {
    /// The voice that was chosen.
    pub voice: String,
    /// The identifier of the voice that speaks.
    pub voice_id: String,
    /// The name of the voice that speaks.
    pub voice_name: String,
    /// Whether the voice that speaks was drawn at random, because the chosen one
    /// is not among the voices of the service.
    pub random: bool,
    /// What is spoken.
    pub text: String,
    /// Where the recording is written.
    pub audio_path: String,
    /// The treatments of the recording, in order.
    pub steps: Vec<AudioStep>,
    /// How loud it is played, in hundredths of full volume.
    pub volume_percent: u8,
    /// Published before the recording is played: who speaks.
    pub announce: Event,
    /// Published after the recording was played: the line is cleared.
    pub clear: Event,
}

pub struct SpeechPlanView {
    pub voice: Seq<char>,
    pub voice_id: Seq<char>,
    pub voice_name: Seq<char>,
    pub random: bool,
    pub text: Seq<char>,
    pub audio_path: Seq<char>,
    pub steps: Seq<AudioStepView>,
    pub volume_percent: u8,
    pub announce: EventView,
    pub clear: EventView,
}

impl View for SpeechPlan {
    type V = SpeechPlanView;

    open spec fn view(&self) -> SpeechPlanView {
        SpeechPlanView {
            voice: self.voice@,
            voice_id: self.voice_id@,
            voice_name: self.voice_name@,
            random: self.random,
            text: self.text@,
            audio_path: self.audio_path@,
            steps: step_views(self.steps@),
            volume_percent: self.volume_percent,
            announce: self.announce@,
            clear: self.clear@,
        }
    }
}

/// The voice for everybody where none is on record.
pub open spec fn default_global_voice() -> Seq<char> {
    "ethan"@
}

/// The plan for speaking `request`, where `pick` is the voice that speaks if the
/// chosen voice is not among `voices`.
pub open spec fn speech_plan(
    request: ElevenLabsRequestView,
    context: SpeechContextView,
    voices: Seq<ElevenlabsVoice>,
    pick: int,
) -> SpeechPlanView {
    let voice = chosen_voice(
        request.voice,
        context.global_voice_enabled,
        context.global_voice,
        context.user_voice,
        default_global_voice(),
    );
    let at = voice_position(voice_names(voices), voice);
    let random = at == voices.len();
    let speaker = if random {
        voices[pick]
    } else {
        voices[at]
    };
    SpeechPlanView {
        voice,
        voice_id: speaker.voice_id@,
        voice_name: speaker.name@,
        random,
        text: sanitized(request.message),
        audio_path: context.recordings_folder + "/"@ + chat_filename(
            context.timestamp,
            request.username,
            voice,
        ) + ".wav"@,
        steps: effect_steps(request.reverb, request.stretch, request.pitch, voice),
        volume_percent: volume_percent(voice),
        announce: EventView::TransformOBSTextRequest(
            TransformOBSTextRequestView {
                message: onscreen_line(
                    request.username,
                    context.global_voice_enabled,
                    random,
                    speaker.name@,
                ),
                text_source: context.text_source,
            },
        ),
        clear: EventView::TransformOBSTextRequest(
            TransformOBSTextRequestView {
                message: Seq::<char>::empty(),
                text_source: context.text_source,
            },
        ),
    }
}

/// Whether the voice that is chosen for `request` is among `voices`.
pub open spec fn speaker_known(
    request: ElevenLabsRequestView,
    context: SpeechContextView,
    voices: Seq<ElevenlabsVoice>,
) -> bool {
    voice_position(
        voice_names(voices),
        chosen_voice(
            request.voice,
            context.global_voice_enabled,
            context.global_voice,
            context.user_voice,
            default_global_voice(),
        ),
    ) < voices.len()
}

/// The plan for speaking `request`. `pick` names the voice that speaks if the
/// chosen one is not among `voices`. There is no plan for a line that is not
/// spoken, and none when the chosen voice is not among `voices` and `pick` names
/// none of them either.
pub fn plan_speech_with(
    request: &ElevenLabsRequest,
    context: &SpeechContext,
    voices: &Vec<ElevenlabsVoice>,
    pick: usize,
) -> (plan: Option<SpeechPlan>)
    ensures
        plan is Some == (is_spoken(request.message@) && (speaker_known(
            request@,
            context@,
            voices@,
        ) || pick < voices@.len())),
        plan is Some ==> plan->0@ == speech_plan(request@, context@, voices@, pick as int),
{
    if !should_speak(request.message.as_str()) {
        return None;
    }
    let voice = choose_voice(
        clone_text(&request.voice),
        context.global_voice_enabled,
        clone_text(&context.global_voice),
        clone_text(&context.user_voice),
        "ethan",
    );
    let filename = twitch_chat_filename(context.timestamp, request.username.clone(), voice.clone());
    let text = sanitize_chat_message(request.message.clone());
    let (speaker, random) = match find_voice_id_by_name(voices, voice.as_str()) {
        Some(found) => (found, false),
        None => match voice_at(voices, pick) {
            Some(drawn) => (drawn, true),
            None => {
                return None;
            },
        },
    };
    let (voice_id, voice_name) = speaker;
    let mut audio_path = context.recordings_folder.clone();
    audio_path.append("/");
    audio_path.append(filename.as_str());
    audio_path.append(".wav");
    let steps = plan_effects(request, voice.as_str());
    let volume_percent = voice_volume_percent(voice.as_str());
    let announce = Event::TransformOBSTextRequest(
        TransformOBSTextRequest {
            message: onscreen_message(
                request.username.as_str(),
                context.global_voice_enabled,
                random,
                voice_name.as_str(),
            ),
            text_source: context.text_source.clone(),
        },
    );
    let clear = Event::TransformOBSTextRequest(
        TransformOBSTextRequest { message: String::new(), text_source: context.text_source.clone() },
    );
    Some(
        SpeechPlan {
            voice,
            voice_id,
            voice_name,
            random,
            text,
            audio_path,
            steps,
            volume_percent,
            announce,
            clear,
        },
    )
}

/// The plan for speaking `request`. If the chosen voice is not among `voices`, one
/// of them is drawn at random. There is no plan for a line that is not spoken,
/// and none when there is no voice at all: then the chosen voice is unknown and
/// there is nothing to draw from.
pub fn plan_speech(
    request: &ElevenLabsRequest,
    context: &SpeechContext,
    voices: &Vec<ElevenlabsVoice>,
) -> (plan: Option<SpeechPlan>)
    ensures
        plan is Some == (is_spoken(request.message@) && voices@.len() > 0),
        plan is Some ==> exists|pick: int|
            0 <= pick < voices@.len() && plan->0@ == #[trigger] speech_plan(
                request@,
                context@,
                voices@,
                pick,
            ),
{
    proof {
        lemma_voice_position_bounds(
            voice_names(voices@),
            chosen_voice(
                request@.voice,
                context@.global_voice_enabled,
                context@.global_voice,
                context@.user_voice,
                default_global_voice(),
            ),
        );
    }
    if voices.len() == 0 {
        return plan_speech_with(request, context, voices, 0);
    }
    let pick = random_below(voices.len());
    let plan = plan_speech_with(request, context, voices, pick);
    assert(plan is Some ==> plan->0@ == speech_plan(request@, context@, voices@, pick as int));
    plan
}

/// The request of a speech event, if `event` is one.
pub fn speech_request(event: &Event) -> (request: Option<&ElevenLabsRequest>)
    ensures
        match request {
            Some(r) => *event == Event::ElevenLabsRequest(*r),
            None => !(event is ElevenLabsRequest),
        },
{
    match event {
        Event::ElevenLabsRequest(request) => Some(request),
        _ => None,
    }
}

/// What `!voice` publishes: the rest of the line, spoken in the voice that was
/// named. Nothing is published when nothing is left to say.
pub open spec fn voice_command_event(
    contents: Seq<char>,
    voice: Seq<char>,
    username: Seq<char>,
) -> Option<EventView> {
    let spoken = without(contents, "!voice "@ + voice);
    if spoken.len() == 0 {
        None
    } else {
        Some(
            EventView::ElevenLabsRequest(
                ElevenLabsRequestView {
                    voice: Some(voice),
                    message: chopped(spoken),
                    voice_text: spoken,
                    username,
                    reverb: false,
                    stretch: None,
                    pitch: None,
                },
            ),
        )
    }
}

/// What `!voice` publishes.
pub fn talk_in_voice(contents: String, voice: String, username: String) -> (event: Option<Event>)
    ensures
        match event {
            Some(e) => Some(e@) == voice_command_event(contents@, voice@, username@),
            None => voice_command_event(contents@, voice@, username@) is None,
        },
{
    let mut command = String::from_str("!voice ");
    command.append(voice.as_str());
    let spoken = remove_all(contents.as_str(), command.as_str());
    if spoken.as_str().unicode_len() == 0 {
        return None;
    }
    let message = chop_text(spoken.clone());
    Some(
        Event::ElevenLabsRequest(
            ElevenLabsRequest {
                voice: Some(voice),
                message,
                voice_text: spoken,
                username,
                reverb: false,
                stretch: None,
                pitch: None,
            },
        ),
    )
}

/// What `!voice` adds to a stream of events: its one event, if it has one and the
/// bus takes it.
pub open spec fn voice_command_sent(
    contents: Seq<char>,
    voice: Seq<char>,
    username: Seq<char>,
    open: bool,
) -> Seq<EventView> {
    match voice_command_event(contents, voice, username) {
        Some(event) => if open {
            seq![event]
        } else {
            Seq::<EventView>::empty()
        },
        None => Seq::<EventView>::empty(),
    }
}

/// Publishes what `!voice` asks for on `bus`: one event if something is left to
/// say, none otherwise. No subscription is read or waited for, and a bus that
/// takes nothing is no error. Returns whether there was an event to publish.
pub fn say_in_voice(
    contents: String,
    voice: String,
    username: String,
    bus: &mut crate::bus::EventBus<Event>,
) -> (said: bool)
    requires
        old(bus)@.log.len() < u64::MAX,
    ensures
        said == (voice_command_event(contents@, voice@, username@) is Some),
        final(bus)@.capacity == old(bus)@.capacity,
        final(bus)@.subscribers == old(bus)@.subscribers,
        final(bus)@.own_sender == old(bus)@.own_sender,
        final(bus)@.handed_out == old(bus)@.handed_out,
        crate::event::event_views(final(bus)@.log) == crate::event::event_views(old(bus)@.log)
            + voice_command_sent(contents@, voice@, username@, !old(bus)@.fully_closed()),
{
    let ghost before = bus@;
    match talk_in_voice(contents, voice, username) {
        Some(event) => {
            let _ = bus.publish(event);
            proof {
                if before.fully_closed() {
                    assert(crate::event::event_views(before.log) + Seq::<EventView>::empty()
                        =~= crate::event::event_views(before.log));
                } else {
                    assert(crate::event::event_views(before.log.push(event))
                        =~= crate::event::event_views(before.log) + seq![event@]);
                }
            }
            true
        },
        None => {
            assert(crate::event::event_views(before.log) + Seq::<EventView>::empty()
                =~= crate::event::event_views(before.log));
            false
        },
    }
}

/// A voice that can be drawn at random.
#[derive(Debug, Clone)]
pub struct Voice {
    pub category: String,
    pub display_name: String,
    pub model_id: String,
    pub name: String,
}

/// What `!random` publishes when the voice called `voice_name` was drawn: the name
/// of the voice on screen, and the rest of the line, spoken in it.
pub open spec fn random_voice_events(
    contents: Seq<char>,
    username: Seq<char>,
    voice_name: Seq<char>,
) -> Seq<EventView> {
    let spoken = without(contents, "!random"@);
    seq![
        EventView::TransformOBSTextRequest(
            TransformOBSTextRequestView { message: voice_name, text_source: "Soundboard-Text"@ },
        ),
        EventView::ElevenLabsRequest(
            ElevenLabsRequestView {
                voice: Some(voice_name),
                message: chopped(spoken),
                voice_text: spoken,
                username,
                reverb: false,
                stretch: None,
                pitch: None,
            },
        ),
    ]
}

/// What `!random` publishes when the voice at `pick` was drawn; nothing when
/// `pick` names no voice.
pub fn random_voice_reaction(contents: String, username: String, voices: &Vec<Voice>, pick: usize) -> (events:
    Option<Vec<Event>>)
    ensures
        events is Some == (pick < voices@.len()),
        events is Some ==> crate::event::event_views(events->0@) == random_voice_events(
            contents@,
            username@,
            voices@[pick as int].name@,
        ),
{
    if pick >= voices.len() {
        return None;
    }
    let name = voices[pick].name.clone();
    let spoken = remove_all(contents.as_str(), "!random");
    let message = chop_text(spoken.clone());
    let mut events: Vec<Event> = Vec::new();
    events.push(
        Event::TransformOBSTextRequest(
            TransformOBSTextRequest {
                message: name.clone(),
                text_source: String::from_str("Soundboard-Text"),
            },
        ),
    );
    events.push(
        Event::ElevenLabsRequest(
            ElevenLabsRequest {
                voice: Some(name),
                message,
                voice_text: spoken,
                username,
                reverb: false,
                stretch: None,
                pitch: None,
            },
        ),
    );
    assert(crate::event::event_views(events@) =~= random_voice_events(
        contents@,
        username@,
        voices@[pick as int].name@,
    ));
    Some(events)
}

/// What `!random` publishes: one of `voices` is drawn at random, its name is shown
/// on screen and the rest of the line is spoken in it. Nothing is published when
/// there is no voice to draw.
pub fn use_random_voice(contents: String, username: String, voices: &Vec<Voice>) -> (events:
    Option<Vec<Event>>)
    ensures
        events is Some == (voices@.len() > 0),
        events is Some ==> exists|pick: int|
            0 <= pick < voices@.len() && crate::event::event_views(events->0@)
                == random_voice_events(contents@, username@, (#[trigger] voices@[pick]).name@),
{
    if voices.len() == 0 {
        return None;
    }
    let pick = random_below(voices.len());
    random_voice_reaction(contents, username, voices, pick)
}

/// A user's character on the stream.
#[derive(Debug, Clone)]
pub struct StreamCharacter {
    pub voice: Option<String>,
    pub source: String,
    pub username: String,
}

/// The character of `username`: the voice on record for the user, or
/// `default_voice` where there is none, shown by the source `default_source`.
pub fn build_stream_character(
    username: &str,
    voice_on_record: Option<String>,
    default_voice: &str,
    default_source: &str,
) -> (character: StreamCharacter)
    ensures
        character.username@ == username@,
        character.source@ == default_source@,
        character.voice is Some,
        character.voice->0@ == match voice_on_record {
            Some(voice) => voice@,
            None => default_voice@,
        },
{
    let voice = match voice_on_record {
        Some(voice) => voice,
        None => String::from_str(default_voice),
    };
    StreamCharacter {
        username: String::from_str(username),
        voice: Some(voice),
        source: String::from_str(find_obs_character(default_source)),
    }
}

/// The source that shows the character of a voice: the same for every voice.
fn find_obs_character<'a>(default_character: &'a str) -> (character: &'a str)
    ensures
        character@ == default_character@,
{
    default_character
}

/// What is put on record when a user sets a voice.
#[derive(Debug, Clone)]
pub struct VoiceRecord {
    pub username: String,
    pub voice: String,
    pub obs_character: String,
    pub random: bool,
}

/// The record that sets `voice` for `username`: the voice in lower case, the
/// character `default_source`, and no drawing at random.
pub fn set_voice(voice: String, username: String, default_source: &str) -> (record: VoiceRecord)
    ensures
        record.username@ == username@,
        record.voice@ == lowercase(voice@),
        record.obs_character@ == default_source@,
        !record.random,
{
    VoiceRecord {
        username,
        voice: to_lower(voice.as_str()),
        obs_character: String::from_str(default_source),
        random: false,
    }
}

} // verus!

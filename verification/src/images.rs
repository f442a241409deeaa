//! Generated pictures: which chat lines ask for one, and how the pictures that
//! come back are taken out of their data addresses and named.

use crate::event::{UserMessage, UserMessageView};
use crate::text::{
    chars_of, join, join_from, matches_at, occurs_at, same, split, split_on, split_words,
    starts_with, tail, views, words,
};
use base64::Engine;
use vstd::prelude::*;

verus! {

/// What a chat line asks of the picture generator.
#[derive(Debug, Clone)]
pub enum FalCommand {
    /// Nothing.
    Nothing,
    /// Set the theme that every background is painted in.
    SetTheme(String),
    /// Make the picture at this path talk.
    TalkingVideo(String),
    /// Paint a background from the line itself.
    Background(String),
}

pub enum FalCommandView {
    Nothing,
    SetTheme(Seq<char>),
    TalkingVideo(Seq<char>),
    Background(Seq<char>),
}

impl View for FalCommand {
    type V = FalCommandView;

    open spec fn view(&self) -> FalCommandView {
        match *self {
            FalCommand::Nothing => FalCommandView::Nothing,
            FalCommand::SetTheme(theme) => FalCommandView::SetTheme(theme@),
            FalCommand::TalkingVideo(path) => FalCommandView::TalkingVideo(path@),
            FalCommand::Background(prompt) => FalCommandView::Background(prompt@),
        }
    }
}

/// What a chat line asks of the picture generator. `!theme` sets the theme, for
/// the broadcaster, the bot and moderators only; `!talk` makes a fixed picture
/// talk; `!fal` does nothing; and every line of more than one word that is no
/// command and is addressed to nobody is painted as a background.
pub open spec fn fal_command(message: UserMessageView) -> FalCommandView {
    let pieces = split(message.contents, ' ');
    let command = pieces[0];
    if command == "!theme"@ {
        if message.user_name != "beginbot"@ && message.user_name != "beginbotbot"@
            && !message.roles.moderator {
            FalCommandView::Nothing
        } else {
            FalCommandView::SetTheme(join(tail(pieces, 1), " "@))
        }
    } else if command == "!talk"@ {
        FalCommandView::TalkingVideo("teej_2.jpg"@)
    } else if command == "!fal"@ {
        FalCommandView::Nothing
    } else if !(command.len() > 0 && command[0] == '!') && !(command.len() > 0 && command[0]
        == '@') && words(message.contents).len() > 1 {
        FalCommandView::Background(message.contents)
    } else {
        FalCommandView::Nothing
    }
}

/// What the chat line `msg` asks of the picture generator.
pub fn handle_fal_commands(msg: &UserMessage) -> (command: FalCommand)
    ensures
        command@ == fal_command(msg@),
{
    let pieces = split_on(msg.contents.as_str(), ' ');
    let command = pieces[0].as_str();
    if same(command, "!theme") {
        let not_beginbot = !same(msg.user_name.as_str(), "beginbot") && !same(
            msg.user_name.as_str(),
            "beginbotbot",
        );
        if not_beginbot && !msg.roles.is_twitch_mod() {
            return FalCommand::Nothing;
        }
        FalCommand::SetTheme(join_from(&pieces, 1, " "))
    } else if same(command, "!talk") {
        FalCommand::TalkingVideo(String::from_str("teej_2.jpg"))
    } else if same(command, "!fal") {
        FalCommand::Nothing
    } else {
        let first = if command.unicode_len() > 0 {
            Some(command.get_char(0))
        } else {
            None
        };
        let is_command = match first {
            Some(c) => c == '!',
            None => false,
        };
        let is_address = match first {
            Some(c) => c == '@',
            None => false,
        };
        let word_count = split_words(msg.contents.as_str()).len();
        if !is_command && !is_address && word_count > 1 {
            FalCommand::Background(msg.contents.clone())
        } else {
            FalCommand::Nothing
        }
    }
}

/// What the generator is asked to paint: the theme, a space, and the line.
pub fn background_prompt(theme: &str, prompt: &str) -> (text: String)
    ensures
        text@ == theme@ + " "@ + prompt@,
{
    let mut text = String::from_str(theme);
    text.append(" ");
    text.append(prompt);
    text
}

/// The pattern of a data address: a media type and, behind `;base64,`, the data.
pub open spec fn data_url_pattern() -> Seq<char> {
    "data:(?P<mime>[\\w/]+);base64,(?P<data>.+)"@
}

/// What the first match of the regular expression `pattern` in `text` holds in
/// its groups named `first` and `second`; the inner `None` where the pattern
/// matches nowhere, the outer one where it is no regular expression.
pub uninterp spec fn regex_groups(
    pattern: Seq<char>,
    text: Seq<char>,
    first: Seq<char>,
    second: Seq<char>,
) -> Option<Option<(Option<Seq<char>>, Option<Seq<char>>)>>;

/// The error of the crate `regex` for a pattern that cannot be compiled.
#[verifier::external_type_specification]
#[verifier::external_body]
pub struct ExRegexError(regex::Error);

/// The error of the crate `base64` for a text that cannot be decoded.
#[verifier::external_type_specification]
#[verifier::external_body]
pub struct ExDecodeError(base64::DecodeError);

/// The groups of a match as a mathematical value.
pub open spec fn groups_view(groups: Option<(Option<String>, Option<String>)>) -> Option<
    (Option<Seq<char>>, Option<Seq<char>>),
> {
    match groups {
        Some((first, second)) => Some(
            (crate::event::text_view(first), crate::event::text_view(second)),
        ),
        None => None,
    }
}

/// The groups named `first` and `second` of the first match of `pattern` in `text`.
///
/// Trusted: this compiles the pattern with `Regex::new` of the crate `regex`,
/// searches the text with `Regex::captures` and reads the two groups with
/// `Captures::name`. What comes back depends on the four texts alone; the rules of
/// matching are not restated here, the contract only gives the result its name.
#[verifier::external_body]
fn capture_groups(pattern: &str, text: &str, first: &str, second: &str) -> (groups: Result<
    Option<(Option<String>, Option<String>)>,
    regex::Error,
>)
    ensures
        match groups {
            Ok(found) => regex_groups(pattern@, text@, first@, second@) == Some(groups_view(found)),
            Err(_) => regex_groups(pattern@, text@, first@, second@) is None,
        },
{
    let re = regex::Regex::new(pattern)?;
    let caps = match re.captures(text) {
        Some(caps) => caps,
        None => return Ok(None),
    };
    let a = match caps.name(first) {
        Some(m) => Some(m.as_str().to_string()),
        None => None,
    };
    let b = match caps.name(second) {
        Some(m) => Some(m.as_str().to_string()),
        None => None,
    };
    Ok(Some((a, b)))
}

/// The bytes that `text` stands for in standard base64 with padding, if it stands
/// for any.
pub uninterp spec fn base64_bytes(text: Seq<char>) -> Option<Seq<u8>>;

/// The bytes that `text` stands for in base64.
///
/// Trusted: this is `Engine::decode` of the crate `base64` on its engine
/// `general_purpose::STANDARD`. What comes back depends on the text alone; the
/// rules of the encoding are not restated here, the contract only gives the
/// result its name.
#[verifier::external_body]
fn decode_base64(text: &str) -> (bytes: Result<Vec<u8>, base64::DecodeError>)
    ensures
        match bytes {
            Ok(decoded) => base64_bytes(text@) == Some(decoded@),
            Err(_) => base64_bytes(text@) is None,
        },
{
    base64::engine::general_purpose::STANDARD.decode(text)
}

/// Why a picture could not be taken out of its address.
#[derive(Debug, Clone, Copy, PartialEq, Eq, Structural)]
pub enum ImageError {
    /// The pattern of data addresses is no regular expression.
    BadPattern,
    /// The data is no base64.
    BadData,
}

/// A picture that could not be taken out of its address: why, and what the
/// crate that refused it says about it.
#[derive(Debug, Clone, PartialEq, Eq)]
pub struct ImageFailure {
    pub kind: ImageError,
    /// The words of the crate that refused the pattern or the data.
    pub reason: String,
}

impl ImageFailure {
    /// What the failure says, in words: what the crate that refused says.
    pub fn message(&self) -> (message: String)
        ensures
            message@ == self.reason@,
    {
        self.reason.clone()
    }
}

/// What an error of the crate `regex` says, in its own words.
///
/// Trusted: this formats the error with its `Display`. Nothing is claimed of the
/// text.
#[verifier::external_body]
fn regex_error_text(error: &regex::Error) -> String {
    format!("{}", error)
}

/// What an error of the crate `base64` says, in its own words.
///
/// Trusted: this formats the error with its `Display`. Nothing is claimed of the
/// text.
#[verifier::external_body]
fn decode_error_text(error: &base64::DecodeError) -> String {
    format!("{}", error)
}

/// The ending of the file for a media type: `png` and `jpg` for the two kinds of
/// picture that are known, `bin` for everything else.
pub open spec fn extension_for(mime: Seq<char>) -> Seq<char> {
    if mime == "image/png"@ {
        "png"@
    } else if mime == "image/jpeg"@ {
        "jpg"@
    } else {
        "bin"@
    }
}

/// The ending of the file for a media type.
pub fn extension_of(mime: &str) -> (extension: &'static str)
    ensures
        extension@ == extension_for(mime@),
{
    if same(mime, "image/png") {
        "png"
    } else if same(mime, "image/jpeg") {
        "jpg"
    } else {
        "bin"
    }
}

/// A picture and the files that it is written to, in order.
#[derive(Debug, Clone)]
pub struct SavedImage {
    pub bytes: Vec<u8>,
    pub paths: Vec<String>,
}

/// Where a picture made at `timestamp` is written: in the folder of generated
/// pictures under its time and ending, as the current picture, and under its
/// time and ending in the extra folder if there is one.
pub open spec fn image_paths(
    timestamp: Seq<char>,
    extension: Seq<char>,
    extra_folder: Option<Seq<char>>,
) -> Seq<Seq<char>> {
    let first = seq![
        "tmp/fal_images/"@ + timestamp + "."@ + extension,
        "./tmp/dalle-1.png"@,
    ];
    match extra_folder {
        Some(folder) => first.push(folder + "/"@ + timestamp + "."@ + extension),
        None => first,
    }
}

/// A text that may be absent, as a mathematical value.
pub open spec fn str_view(text: Option<&str>) -> Option<Seq<char>> {
    match text {
        Some(t) => Some(t@),
        None => None,
    }
}

/// What becomes of the address `url`. An address in which the pattern of data
/// addresses matches nowhere gives no picture, and so does a match that lacks a
/// group. Data that is no base64 is an error. Everything else is a picture: the
/// bytes that the data stands for, and the files named after the time and the
/// media type.
pub open spec fn image_of_url(
    url: Seq<char>,
    timestamp: Seq<char>,
    extra_folder: Option<Seq<char>>,
) -> Result<Option<(Seq<u8>, Seq<Seq<char>>)>, ImageError> {
    match regex_groups(data_url_pattern(), url, "mime"@, "data"@) {
        None => Err(ImageError::BadPattern),
        Some(None) => Ok(None),
        Some(Some((Some(mime), Some(data)))) => match base64_bytes(data) {
            Some(bytes) => Ok(
                Some((bytes, image_paths(timestamp, extension_for(mime), extra_folder))),
            ),
            None => Err(ImageError::BadData),
        },
        Some(Some(_)) => Ok(None),
    }
}

/// A picture and its files as a mathematical value.
pub open spec fn saved_view(image: Result<Option<SavedImage>, ImageFailure>) -> Result<
    Option<(Seq<u8>, Seq<Seq<char>>)>,
    ImageError,
> {
    match image {
        Ok(Some(saved)) => Ok(Some((saved.bytes@, views(saved.paths@)))),
        Ok(None) => Ok(None),
        Err(failure) => Err(failure.kind),
    }
}

/// The files of a picture of the media type `mime`, made at `timestamp`.
pub fn name_image(bytes: Vec<u8>, mime: &str, timestamp: &str, extra_folder: Option<&str>) -> (image:
    SavedImage)
    ensures
        image.bytes@ == bytes@,
        views(image.paths@) == image_paths(
            timestamp@,
            extension_for(mime@),
            str_view(extra_folder),
        ),
{
    let extension = extension_of(mime);
    let mut paths: Vec<String> = Vec::new();
    let mut main = String::from_str("tmp/fal_images/");
    main.append(timestamp);
    main.append(".");
    main.append(extension);
    paths.push(main);
    paths.push(String::from_str("./tmp/dalle-1.png"));
    match extra_folder {
        Some(folder) => {
            let mut extra = String::from_str(folder);
            extra.append("/");
            extra.append(timestamp);
            extra.append(".");
            extra.append(extension);
            paths.push(extra);
        },
        None => {},
    }
    let image = SavedImage { bytes, paths };
    assert(views(image.paths@) =~= image_paths(
        timestamp@,
        extension_for(mime@),
        str_view(extra_folder),
    ));
    image
}

/// The groups named `first` and `second` of the first match of the regular
/// expression `pattern` in `text`: none where the pattern matches nowhere, and an
/// error where it is no regular expression.
pub fn find_groups(pattern: &str, text: &str, first: &str, second: &str) -> (groups: Result<
    Option<(Option<String>, Option<String>)>,
    ImageFailure,
>)
    ensures
        match groups {
            Ok(found) => regex_groups(pattern@, text@, first@, second@) == Some(groups_view(found)),
            Err(failure) => failure.kind == ImageError::BadPattern && regex_groups(
                pattern@,
                text@,
                first@,
                second@,
            ) is None,
        },
{
    match capture_groups(pattern, text, first, second) {
        Ok(found) => Ok(found),
        Err(error) => Err(
            ImageFailure { kind: ImageError::BadPattern, reason: regex_error_text(&error) },
        ),
    }
}

/// The bytes that the base64 text `data` stands for; an error where it stands for
/// none.
pub fn decode_data(data: &str) -> (bytes: Result<Vec<u8>, ImageFailure>)
    ensures
        match bytes {
            Ok(decoded) => base64_bytes(data@) == Some(decoded@),
            Err(failure) => failure.kind == ImageError::BadData && base64_bytes(data@) is None,
        },
{
    match decode_base64(data) {
        Ok(decoded) => Ok(decoded),
        Err(error) => Err(
            ImageFailure { kind: ImageError::BadData, reason: decode_error_text(&error) },
        ),
    }
}

/// Takes the picture out of the address `url` and names its files. An address
/// that is no data address gives no picture; data that is no base64 is an error.
pub fn process_image(url: &str, timestamp: &str, extra_folder: Option<&str>) -> (image: Result<
    Option<SavedImage>,
    ImageFailure,
>)
    ensures
        saved_view(image) == image_of_url(url@, timestamp@, str_view(extra_folder)),
{
    let groups = match find_groups(
        "data:(?P<mime>[\\w/]+);base64,(?P<data>.+)",
        url,
        "mime",
        "data",
    ) {
        Ok(groups) => groups,
        Err(error) => {
            return Err(error);
        },
    };
    match groups {
        Some((Some(mime), Some(data))) => {
            match decode_data(data.as_str()) {
                Ok(bytes) => Ok(Some(name_image(bytes, mime.as_str(), timestamp, extra_folder))),
                Err(error) => Err(error),
            }
        },
        _ => Ok(None),
    }
}

/// The pictures among the addresses `urls`, in order: every address that gives a
/// picture, with its files.
pub open spec fn images_of(
    urls: Seq<Seq<char>>,
    timestamp: Seq<char>,
    extra_folder: Option<Seq<char>>,
) -> Seq<(Seq<u8>, Seq<Seq<char>>)>
    decreases urls.len(),
{
    if urls.len() == 0 {
        Seq::empty()
    } else {
        let before = images_of(urls.drop_last(), timestamp, extra_folder);
        match image_of_url(urls.last(), timestamp, extra_folder) {
            Ok(Some(image)) => before.push(image),
            _ => before,
        }
    }
}

/// The views of a list of pictures.
pub open spec fn image_views(images: Seq<SavedImage>) -> Seq<(Seq<u8>, Seq<Seq<char>>)> {
    Seq::new(images.len(), |i: int| (images[i].bytes@, views(images[i].paths@)))
}

/// The pictures that were taken out of a list of addresses, and the error that
/// ended the work, if one did.
#[derive(Debug, Clone)]
pub struct ProcessedImages {
    /// The pictures to write, in order.
    pub saved: Vec<SavedImage>,
    /// The position of the address that could not be read, and why.
    pub error: Option<(usize, ImageFailure)>,
}

/// Takes the pictures out of the addresses `urls`, one after the other, and names
/// their files. An address that gives no picture is passed over. The first
/// address that cannot be read ends the work: the pictures in front of it are
/// still written, those behind it are not looked at.
pub fn process_images(urls: &Vec<String>, timestamp: &str, extra_folder: Option<&str>) -> (done:
    ProcessedImages)
    ensures
        match done.error {
            None => {
                &&& forall|i: int|
                    0 <= i < urls@.len() ==> image_of_url(
                        #[trigger] urls@[i]@,
                        timestamp@,
                        str_view(extra_folder),
                    ) is Ok
                &&& image_views(done.saved@) == images_of(
                    views(urls@),
                    timestamp@,
                    str_view(extra_folder),
                )
            },
            Some((at, failure)) => {
                &&& at < urls@.len()
                &&& forall|i: int|
                    0 <= i < at ==> image_of_url(
                        #[trigger] urls@[i]@,
                        timestamp@,
                        str_view(extra_folder),
                    ) is Ok
                &&& image_of_url(urls@[at as int]@, timestamp@, str_view(extra_folder)) == Err::<
                    Option<(Seq<u8>, Seq<Seq<char>>)>,
                    ImageError,
                >(failure.kind)
                &&& image_views(done.saved@) == images_of(
                    views(urls@).take(at as int),
                    timestamp@,
                    str_view(extra_folder),
                )
            },
        },
{
    let mut saved: Vec<SavedImage> = Vec::new();
    let ghost all = views(urls@);
    let ghost extra = str_view(extra_folder);
    let mut i: usize = 0;
    assert(all.take(0) =~= Seq::<Seq<char>>::empty());
    assert(image_views(saved@) =~= images_of(all.take(0), timestamp@, extra));
    while i < urls.len()
        invariant
            i <= urls@.len(),
            all == views(urls@),
            extra == str_view(extra_folder),
            forall|k: int|
                0 <= k < i ==> image_of_url(#[trigger] urls@[k]@, timestamp@, extra) is Ok,
            image_views(saved@) == images_of(all.take(i as int), timestamp@, extra),
        decreases urls@.len() - i,
    {
        proof {
            assert(all.take(i + 1).drop_last() =~= all.take(i as int));
            assert(all.take(i + 1).last() == urls@[i as int]@);
        }
        match process_image(urls[i].as_str(), timestamp, extra_folder) {
            Ok(Some(image)) => {
                let ghost before = image_views(saved@);
                let ghost view = (image.bytes@, views(image.paths@));
                saved.push(image);
                assert(image_views(saved@) =~= before.push(view));
            },
            Ok(None) => {},
            Err(error) => {
                return ProcessedImages { saved, error: Some((i, error)) };
            },
        }
        i = i + 1;
    }
    assert(all.take(i as int) =~= all);
    ProcessedImages { saved, error: None }
}

/// Where the answer of the picture generator, received at `timestamp`, is kept.
pub fn response_path(timestamp: &str) -> (path: String)
    ensures
        path@ == "tmp/fal_responses/"@ + timestamp@ + ".json"@,
{
    let mut path = String::from_str("tmp/fal_responses/");
    path.append(timestamp);
    path.append(".json");
    path
}

} // verus!

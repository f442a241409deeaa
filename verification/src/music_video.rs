//! Music videos: which chat lines ask for one, for which song, and which picture
//! of a song a video is made from.

use crate::event::{UserMessage, UserMessageView};
use crate::text::{same, split_words, views, words};
use vstd::prelude::*;

verus! {

/// What a chat line asks of the maker of music videos.
#[derive(Debug, Clone)]
pub enum Command {
    /// Make a video of the song `id` from its picture called `image_name`.
    CreateMusicVideoVideo { id: String, image_name: String },
    /// Make one picture for the song `id`.
    CreateMusicVideoImage { id: String },
    /// Make the pictures for the song `id`.
    CreateMusicVideoImages { id: String },
    /// Make the pictures and the video for the song `id`.
    CreateMusicVideo { id: String },
    /// Nothing.
    Unknown,
}

pub enum CommandView {
    CreateMusicVideoVideo { id: Seq<char>, image_name: Seq<char> },
    CreateMusicVideoImage { id: Seq<char> },
    CreateMusicVideoImages { id: Seq<char> },
    CreateMusicVideo { id: Seq<char> },
    Unknown,
}

impl View for Command {
    type V = CommandView;

    open spec fn view(&self) -> CommandView {
        match *self {
            Command::CreateMusicVideoVideo { id, image_name } => CommandView::CreateMusicVideoVideo {
                id: id@,
                image_name: image_name@,
            },
            Command::CreateMusicVideoImage { id } => CommandView::CreateMusicVideoImage { id: id@ },
            Command::CreateMusicVideoImages { id } => CommandView::CreateMusicVideoImages {
                id: id@,
            },
            Command::CreateMusicVideo { id } => CommandView::CreateMusicVideo { id: id@ },
            Command::Unknown => CommandView::Unknown,
        }
    }
}

/// Why a chat line cannot be carried out.
#[derive(Debug, Clone, Copy, PartialEq, Eq, Structural)]
pub enum CommandError {
    /// A video was asked for without the name of a picture.
    NoImageName,
}

impl CommandError {
    /// What the error says, in words.
    pub fn message(&self) -> (message: String)
        ensures
            message@ == "No image name provided for video generation"@,
    {
        String::from_str("No image name provided for video generation")
    }
}

/// The song that a command is about: the one that its second word names, or the
/// one that is playing.
pub open spec fn song_of(line: Seq<Seq<char>>, current_song: Seq<char>) -> Seq<char> {
    if line.len() > 1 {
        line[1]
    } else {
        current_song
    }
}

/// What the line with the words `line` asks for while `current_song` is playing.
/// A video is always made of the song that is playing, and needs the name of a
/// picture.
pub open spec fn parsed_command(line: Seq<Seq<char>>, current_song: Seq<char>) -> Result<
    CommandView,
    CommandError,
> {
    if line.len() == 0 {
        Ok(CommandView::Unknown)
    } else if line[0] == "!create_music_video_images"@ || line[0] == "!generate_images"@ {
        Ok(CommandView::CreateMusicVideoImages { id: song_of(line, current_song) })
    } else if line[0] == "!generate_video"@ {
        if line.len() > 1 {
            Ok(CommandView::CreateMusicVideoVideo { id: current_song, image_name: line[1] })
        } else {
            Err(CommandError::NoImageName)
        }
    } else if line[0] == "!generate_image"@ {
        Ok(CommandView::CreateMusicVideoImage { id: song_of(line, current_song) })
    } else if line[0] == "!create_music_video"@ {
        Ok(CommandView::CreateMusicVideo { id: song_of(line, current_song) })
    } else {
        Ok(CommandView::Unknown)
    }
}

/// A command as a mathematical value.
pub open spec fn command_view(command: Result<Command, CommandError>) -> Result<
    CommandView,
    CommandError,
> {
    match command {
        Ok(c) => Ok(c@),
        Err(e) => Err(e),
    }
}

fn song_named(line: &Vec<String>, current_song: &str) -> (id: String)
    ensures
        id@ == song_of(views(line@), current_song@),
{
    if line.len() > 1 {
        line[1].clone()
    } else {
        String::from_str(current_song)
    }
}

/// What the chat line `msg` asks of the maker of music videos while
/// `current_song` is playing.
pub fn parse_command(msg: &UserMessage, current_song: &str) -> (command: Result<
    Command,
    CommandError,
>)
    ensures
        command_view(command) == parsed_command(words(msg.contents@), current_song@),
{
    let line = split_words(msg.contents.as_str());
    if line.len() == 0 {
        return Ok(Command::Unknown);
    }
    let first = line[0].as_str();
    if same(first, "!create_music_video_images") || same(first, "!generate_images") {
        Ok(Command::CreateMusicVideoImages { id: song_named(&line, current_song) })
    } else if same(first, "!generate_video") {
        if line.len() > 1 {
            Ok(
                Command::CreateMusicVideoVideo {
                    id: String::from_str(current_song),
                    image_name: line[1].clone(),
                },
            )
        } else {
            Err(CommandError::NoImageName)
        }
    } else if same(first, "!generate_image") {
        Ok(Command::CreateMusicVideoImage { id: song_named(&line, current_song) })
    } else if same(first, "!create_music_video") {
        Ok(Command::CreateMusicVideo { id: song_named(&line, current_song) })
    } else {
        Ok(Command::Unknown)
    }
}

/// What the chat line `msg` sets going: nothing for a line of the bot of the
/// chat, and else what `parse_command` reads in it.
pub fn handle_requests(msg: &UserMessage, current_song: &str) -> (command: Result<
    Command,
    CommandError,
>)
    ensures
        command_view(command) == if msg.user_name@ == "nightbot"@ {
            Ok::<CommandView, CommandError>(CommandView::Unknown)
        } else {
            parsed_command(words(msg.contents@), current_song@)
        },
{
    if same(msg.user_name.as_str(), "nightbot") {
        return Ok(Command::Unknown);
    }
    parse_command(msg, current_song)
}

/// The folder that holds the pictures of the song `song_id`.
pub fn pictures_folder(song_id: &str) -> (path: String)
    ensures
        path@ == "./tmp/music_videos/"@ + song_id@ + "/"@,
{
    let mut path = String::from_str("./tmp/music_videos/");
    path.append(song_id);
    path.append("/");
    path
}

/// One entry of a folder, as far as it is read.
#[derive(Debug, Clone)]
pub struct FolderEntry {
    pub path: String,
    pub is_file: bool,
    /// What stands behind the last dot of the name, if it is text.
    pub extension: Option<String>,
    /// What stands in front of the last dot of the name, if it is text.
    pub file_stem: Option<String>,
}

/// Why no picture was found.
#[derive(Debug, Clone, Copy, PartialEq, Eq, Structural)]
pub enum ImageSearchError {
    /// A file without an ending was met before a picture of that name.
    NoExtension,
    /// A picture without a name was met before a picture of that name.
    NoFileStem,
    /// No picture has that name.
    NotFound,
}

impl ImageSearchError {
    /// What the error says of the search for the picture called `name`.
    pub open spec fn text(self, name: Seq<char>) -> Seq<char> {
        match self {
            ImageSearchError::NoExtension => "Failed to get file extension"@,
            ImageSearchError::NoFileStem => "Failed to get file stem"@,
            ImageSearchError::NotFound => "No matching image found for: "@ + name,
        }
    }

    /// What the error says of the search for the picture called `name`.
    pub fn message(&self, name: &str) -> (message: String)
        ensures
            message@ == self.text(name@),
    {
        match self {
            ImageSearchError::NoExtension => String::from_str("Failed to get file extension"),
            ImageSearchError::NoFileStem => String::from_str("Failed to get file stem"),
            ImageSearchError::NotFound => {
                let mut message = String::from_str("No matching image found for: ");
                message.append(name);
                message
            },
        }
    }
}

/// Whether a file with this ending is a picture.
pub open spec fn is_picture(extension: Seq<char>) -> bool {
    extension == "png"@ || extension == "jpeg"@ || extension == "jpg"@
}

/// What the search among `entries` comes to, from the first entry on: folders and
/// files that are no pictures are passed over; a file without an ending, or a
/// picture without a name, ends the search with an error; the first picture
/// called `name` is the one.
pub open spec fn image_search(entries: Seq<FolderEntry>, name: Seq<char>) -> Result<
    Seq<char>,
    ImageSearchError,
>
    decreases entries.len(),
{
    if entries.len() == 0 {
        Err(ImageSearchError::NotFound)
    } else {
        let entry = entries[0];
        if !entry.is_file {
            image_search(entries.skip(1), name)
        } else if entry.extension is None {
            Err(ImageSearchError::NoExtension)
        } else if !is_picture(entry.extension->0@) {
            image_search(entries.skip(1), name)
        } else if entry.file_stem is None {
            Err(ImageSearchError::NoFileStem)
        } else if entry.file_stem->0@ == name {
            Ok(entry.path@)
        } else {
            image_search(entries.skip(1), name)
        }
    }
}

/// The path of the picture called `name` among `entries`.
pub fn find_image_filename(entries: &Vec<FolderEntry>, name: &str) -> (found: Result<
    String,
    ImageSearchError,
>)
    ensures
        match found {
            Ok(path) => image_search(entries@, name@) == Ok::<Seq<char>, ImageSearchError>(path@),
            Err(error) => image_search(entries@, name@) == Err::<Seq<char>, ImageSearchError>(
                error,
            ),
        },
{
    let mut i: usize = 0;
    assert(entries@.skip(0) =~= entries@);
    while i < entries.len()
        invariant
            i <= entries@.len(),
            image_search(entries@, name@) == image_search(entries@.skip(i as int), name@),
        decreases entries@.len() - i,
    {
        let entry = &entries[i];
        proof {
            assert(entries@.skip(i as int)[0] == entries@[i as int]);
            assert(entries@.skip(i as int).skip(1) =~= entries@.skip(i + 1));
        }
        if entry.is_file {
            match &entry.extension {
                None => {
                    return Err(ImageSearchError::NoExtension);
                },
                Some(extension) => {
                    let ending = extension.as_str();
                    if same(ending, "png") || same(ending, "jpeg") || same(ending, "jpg") {
                        match &entry.file_stem {
                            None => {
                                return Err(ImageSearchError::NoFileStem);
                            },
                            Some(stem) => {
                                if same(stem.as_str(), name) {
                                    return Ok(entry.path.clone());
                                }
                            },
                        }
                    }
                },
            }
        }
        i = i + 1;
    }
    assert(entries@.skip(i as int).len() == 0);
    Err(ImageSearchError::NotFound)
}

} // verus!

//! Skyboxes: how one is asked for, where its files go, and which scene shows it.

use crate::text::{
    decimal, decimal_of, same, split_words, trim_start, trimmed_start, views, words,
};
use vstd::prelude::*;

verus! {

/// What the service answers when it is asked about a request.
#[derive(Debug, Clone, Default)]
pub struct OuterSkyboxStatusResponse {
    pub request: SkyboxStatusResponse,
}

/// The state of a request for a skybox, as the service reports it.
#[derive(Debug, Clone, Default)]
pub struct SkyboxStatusResponse {
    pub id: i32,
    pub obfuscated_id: String,
    pub user_id: i32,
    pub api_key_id: i32,
    pub title: String,
    pub seed: i32,
    pub negative_text: Option<String>,
    pub prompt: String,
    pub username: String,
    pub status: String,
    pub queue_position: i32,
    pub file_url: String,
    pub thumb_url: String,
    pub depth_map_url: String,
    pub remix_imagine_id: Option<i32>,
    pub remix_obfuscated_id: Option<String>,
    pub is_my_favorite: bool,
    pub created_at: String,
    pub updated_at: String,
    pub error_message: Option<String>,
    pub pusher_channel: String,
    pub pusher_event: String,
    pub item_type: String,
    pub skybox_style_id: i32,
    pub skybox_id: i32,
    pub skybox_style_name: String,
    pub skybox_name: String,
}

/// What the page that shows a skybox is filled with.
#[derive(Debug, Clone, Copy)]
pub struct SkyboxTemplate<'a> {
    pub url: &'a str,
}

/// The address at which the state of requests is asked for.
pub open spec fn status_address() -> Seq<char> {
    "https://backend.blockadelabs.com/api/v1/imagine/requests"@
}

/// The address at which skyboxes are asked for.
pub open spec fn remix_address() -> Seq<char> {
    "https://backend.blockadelabs.com/api/v1/skybox"@
}

/// The address that tells the state of the request `id` to the holder of `api_key`.
pub fn status_url(id: i32, api_key: &str) -> (url: String)
    ensures
        url@ == status_address() + "/"@ + decimal(id as int) + "?api_key="@ + api_key@,
{
    let mut url = String::from_str("https://backend.blockadelabs.com/api/v1/imagine/requests");
    url.append("/");
    let number = decimal_of(id as i64);
    url.append(number.as_str());
    url.append("?api_key=");
    url.append(api_key);
    url
}

/// The address that takes requests for skyboxes from the holder of `api_key`.
pub fn request_url(api_key: &str) -> (url: String)
    ensures
        url@ == remix_address() + "?api_key="@ + api_key@,
{
    let mut url = String::from_str("https://backend.blockadelabs.com/api/v1/skybox");
    url.append("?api_key=");
    url.append(api_key);
    url
}

/// The style of a skybox: the same for every prompt.
pub fn find_style_id(words: Vec<&str>) -> (style: i32)
    ensures
        style == 1,
{
    1
}

/// A prompt as it is sent to the service, and the style that goes with it.
#[derive(Debug, Clone)]
pub struct SkyboxOrder {
    pub prompt: String,
    pub skybox_style_id: i32,
}

/// What is sent to the service for `prompt`: the prompt without the white space
/// at its beginning, in the one style there is.
pub fn order_skybox(prompt: &str) -> (order: SkyboxOrder)
    ensures
        order.prompt@ == trimmed_start(prompt@),
        order.skybox_style_id == 1,
{
    let prompt = trim_start(prompt);
    SkyboxOrder { prompt, skybox_style_id: 1 }
}

/// Where the answer of the service is kept: a file named after the time.
pub fn response_filepath(time: &str) -> (path: String)
    ensures
        path@ == "./tmp/skybox_"@ + time@ + ".json"@,
{
    let mut path = String::from_str("./tmp/skybox_");
    path.append(time);
    path.append(".json");
    path
}

/// Whether the picture of a request is there to be fetched.
pub fn has_file(status: &SkyboxStatusResponse) -> (ready: bool)
    ensures
        ready == (status.file_url@.len() > 0),
{
    status.file_url.as_str().unicode_len() > 0
}

/// Where the picture of the request `id`, fetched at `timestamp`, is kept.
pub fn archive_file(timestamp: &str, id: i32) -> (path: String)
    ensures
        path@ == "./archive/skybox/"@ + timestamp@ + "_"@ + decimal(id as int) + ".png"@,
{
    let mut path = String::from_str("./archive/skybox/");
    path.append(timestamp);
    path.append("_");
    let number = decimal_of(id as i64);
    path.append(number.as_str());
    path.append(".png");
    path
}

/// The skybox that belongs to a scene, for the scenes that have one.
pub open spec fn skybox_of_scene(scene: Seq<char>) -> Option<Seq<char>> {
    if scene == "office"@ {
        Some("2443168"@)
    } else if scene == "office1"@ {
        Some("2443168"@)
    } else if scene == "bar1"@ {
        Some("2451051"@)
    } else if scene == "bar"@ {
        Some("2449796"@)
    } else {
        None
    }
}

/// The skybox that belongs to the scene `scene`, if it has one.
pub fn scene_skybox(scene: &str) -> (id: Option<&'static str>)
    ensures
        match id {
            Some(i) => skybox_of_scene(scene@) == Some(i@),
            None => skybox_of_scene(scene@) is None,
        },
{
    if same(scene, "office") {
        Some("2443168")
    } else if same(scene, "office1") {
        Some("2443168")
    } else if same(scene, "bar1") {
        Some("2451051")
    } else if same(scene, "bar") {
        Some("2449796")
    } else {
        None
    }
}

/// Where the address of a skybox is on record.
pub open spec fn archive_record(skybox_id: Seq<char>) -> Seq<char> {
    "/home/begin/code/BeginGPT/GoBeginGPT/skybox_archive/"@ + skybox_id + ".txt"@
}

/// The skybox of a scene that is shown: the one that is named, or the one that
/// belongs to the scene when none is named. A scene without a skybox of its own
/// that names none has none.
pub open spec fn skybox_shown(filter_name: Seq<char>, skybox_id: Seq<char>) -> Option<Seq<char>> {
    if skybox_id.len() == 0 {
        skybox_of_scene(filter_name)
    } else {
        Some(skybox_id)
    }
}

/// Where the address of the skybox of a scene is on record; none for a scene
/// that has no skybox to show.
pub fn archive_path(filter_name: &str, skybox_id: &str) -> (path: Option<String>)
    ensures
        match path {
            Some(p) => skybox_shown(filter_name@, skybox_id@) is Some && p@ == archive_record(
                skybox_shown(filter_name@, skybox_id@)->0,
            ),
            None => skybox_shown(filter_name@, skybox_id@) is None,
        },
{
    let mut path = String::from_str("/home/begin/code/BeginGPT/GoBeginGPT/skybox_archive/");
    if skybox_id.unicode_len() == 0 {
        match scene_skybox(filter_name) {
            Some(id) => {
                path.append(id);
            },
            None => {
                return None;
            },
        }
    } else {
        path.append(skybox_id);
    }
    path.append(".txt");
    Some(path)
}

/// The file through which the program that shows the scenes is told what to do
/// next: one for each kind of order.
pub fn write_target(order: &str) -> (path: String)
    ensures
        path@ == "/home/begin/code/BeginGPT/tmp/current/"@ + order@ + ".txt"@,
{
    let mut path = String::from_str("/home/begin/code/BeginGPT/tmp/current/");
    path.append(order);
    path.append(".txt");
    path
}

/// What is written for the program that shows the scene: the name of the scene,
/// followed by the address of its skybox where one is on record.
pub fn scene_command(filter_name: &str, recorded_url: Option<&str>) -> (command: String)
    ensures
        command@ == match recorded_url {
            Some(url) => filter_name@ + " "@ + url@,
            None => filter_name@,
        },
{
    let mut command = String::from_str(filter_name);
    match recorded_url {
        Some(url) => {
            command.append(" ");
            command.append(url);
        },
        None => {},
    }
    command
}

} // verus!

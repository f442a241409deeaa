//! The filters of the scene: how they are named, which of them a source needs,
//! and which piece of music a scene plays.

use crate::text::{lowercase, same, views};
use crate::voice::random_below;
use vstd::prelude::*;

verus! {

/// The name of the filter that moves the filter or source called `name`.
pub open spec fn mover_of(name: Seq<char>) -> Seq<char> {
    "Move_"@ + name
}

/// The name of the filter that moves the filter or source called `name`.
pub fn move_filter_name(name: &str) -> (mover: String)
    ensures
        mover@ == mover_of(name@),
{
    let mut mover = String::from_str("Move_");
    mover.append(name);
    mover
}

/// The setting that a spin changes: the rotation about the axis that is named, or
/// about `z` when none is.
pub open spec fn rotation_setting(name: Seq<char>) -> Seq<char> {
    if name == "spin"@ || name == "z"@ {
        "Rotation.Z"@
    } else if name == "spinx"@ || name == "x"@ {
        "Rotation.X"@
    } else if name == "spiny"@ || name == "y"@ {
        "Rotation.Y"@
    } else {
        "Rotation.Z"@
    }
}

/// The setting that the spin called `filter_setting_name` changes.
pub fn spin(filter_setting_name: &str) -> (setting: &'static str)
    ensures
        setting@ == rotation_setting(filter_setting_name@),
{
    if same(filter_setting_name, "spin") || same(filter_setting_name, "z") {
        "Rotation.Z"
    } else if same(filter_setting_name, "spinx") || same(filter_setting_name, "x") {
        "Rotation.X"
    } else if same(filter_setting_name, "spiny") || same(filter_setting_name, "y") {
        "Rotation.Y"
    } else {
        "Rotation.Z"
    }
}

/// Whether a filter has to be created: only one that is not among `filters`.
pub fn find_or_create_filter(filters: &Vec<String>, filter_name: &str) -> (create: bool)
    ensures
        create == !views(filters@).contains(filter_name@),
{
    let mut i: usize = 0;
    while i < filters.len()
        invariant
            i <= filters@.len(),
            forall|k: int| 0 <= k < i ==> views(filters@)[k] != filter_name@,
        decreases filters@.len() - i,
    {
        if same(filters[i].as_str(), filter_name) {
            assert(views(filters@)[i as int] == filter_name@);
            return false;
        }
        i = i + 1;
    }
    true
}

/// The camera that a setting of the transform is seen through.
#[derive(Debug, Clone)]
pub struct CameraType {
    pub setting: String,
    pub camera: i32,
}

/// The position of the first entry for `setting`, or the number of entries when
/// there is none.
pub open spec fn camera_position(cameras: Seq<CameraType>, setting: Seq<char>) -> int
    decreases cameras.len(),
{
    if cameras.len() == 0 {
        0
    } else if cameras[0].setting@ == setting {
        0
    } else {
        1 + camera_position(cameras.skip(1), setting)
    }
}

/// The camera that `setting` is seen through, if `cameras` knows it.
pub fn camera_for(cameras: &Vec<CameraType>, setting: &str) -> (camera: Option<i32>)
    ensures
        match camera {
            Some(number) => 0 <= camera_position(cameras@, setting@) < cameras@.len() && number
                == cameras@[camera_position(cameras@, setting@)].camera,
            None => camera_position(cameras@, setting@) == cameras@.len(),
        },
{
    let mut i: usize = 0;
    assert(cameras@.skip(0) =~= cameras@);
    while i < cameras.len()
        invariant
            i <= cameras@.len(),
            camera_position(cameras@, setting@) == i + camera_position(
                cameras@.skip(i as int),
                setting@,
            ),
        decreases cameras@.len() - i,
    {
        proof {
            assert(cameras@.skip(i as int)[0] == cameras@[i as int]);
            assert(cameras@.skip(i as int).skip(1) =~= cameras@.skip(i + 1));
        }
        if same(cameras[i].setting.as_str(), setting) {
            return Some(cameras[i].camera);
        }
        i = i + 1;
    }
    assert(cameras@.skip(i as int).len() == 0);
    None
}

/// The names of the filters that every source gets.
#[derive(Debug, Clone)]
pub struct FilterNames {
    /// The source that is set up by hand and never touched.
    pub default_source: String,
    /// The scene that holds the sources.
    pub default_scene: String,
    /// The filter that transforms a source in space.
    pub transform: String,
    /// The kind of filter that transforms a source in space.
    pub transform_kind: String,
    /// The kind of filter that moves the settings of another.
    pub mover_kind: String,
    /// The filter that moves the transform once everything is set up.
    pub transform_mover: String,
    /// The filter that moves the scrolling once everything is set up.
    pub scroll_mover: String,
    /// The filter that blurs.
    pub blur: String,
    /// The filter that moves the blur once everything is set up.
    pub blur_mover: String,
    /// The filter that draws outlines and shadows.
    pub outline: String,
    /// The filter that moves the outlines and shadows once everything is set up.
    pub outline_mover: String,
}

pub struct FilterNamesView {
    pub default_source: Seq<char>,
    pub default_scene: Seq<char>,
    pub transform: Seq<char>,
    pub transform_kind: Seq<char>,
    pub mover_kind: Seq<char>,
    pub transform_mover: Seq<char>,
    pub scroll_mover: Seq<char>,
    pub blur: Seq<char>,
    pub blur_mover: Seq<char>,
    pub outline: Seq<char>,
    pub outline_mover: Seq<char>,
}

impl View for FilterNames {
    type V = FilterNamesView;

    open spec fn view(&self) -> FilterNamesView {
        FilterNamesView {
            default_source: self.default_source@,
            default_scene: self.default_scene@,
            transform: self.transform@,
            transform_kind: self.transform_kind@,
            mover_kind: self.mover_kind@,
            transform_mover: self.transform_mover@,
            scroll_mover: self.scroll_mover@,
            blur: self.blur@,
            blur_mover: self.blur_mover@,
            outline: self.outline@,
            outline_mover: self.outline_mover@,
        }
    }
}

/// What a filter is created with.
#[derive(Debug, Clone, Copy, PartialEq, Eq, Structural)]
pub enum Settings {
    /// Nothing but what every filter of its kind starts with.
    Default,
    /// The camera with this number.
    Camera(i32),
    /// What the filter of the same name has on the source that is set up by hand.
    LikeDefaultSource,
}

/// What a filter that moves the settings of another is set up for.
#[derive(Debug, Clone, Copy, PartialEq, Eq, Structural)]
pub enum MoverKind {
    /// Nothing in particular.
    Plain,
    /// The size of a blur.
    Blur,
    /// Outlines and shadows, all switched off.
    Outline,
}

/// One step of setting up the filters of a source. A step that fails stops
/// everything that follows.
#[derive(Debug, Clone)]
pub enum FilterStep {
    /// Remove the filter of this name.
    Remove { name: String },
    /// Create the filter of this name that moves the source within the scene.
    MoveSource { scene: String, name: String },
    /// Create the filter `name` of the kind `kind`.
    Create { name: String, kind: String, settings: Settings },
    /// Create the filter `name` of the kind `kind`, which moves the settings of
    /// the filter `target` within `duration` milliseconds.
    Mover { name: String, kind: String, target: String, value_type: i32, duration: u32, setup: MoverKind },
}

pub enum FilterStepView {
    Remove { name: Seq<char> },
    MoveSource { scene: Seq<char>, name: Seq<char> },
    Create { name: Seq<char>, kind: Seq<char>, settings: Settings },
    Mover {
        name: Seq<char>,
        kind: Seq<char>,
        target: Seq<char>,
        value_type: i32,
        duration: u32,
        setup: MoverKind,
    },
}

impl View for FilterStep {
    type V = FilterStepView;

    open spec fn view(&self) -> FilterStepView {
        match *self {
            FilterStep::Remove { name } => FilterStepView::Remove { name: name@ },
            FilterStep::MoveSource { scene, name } => FilterStepView::MoveSource {
                scene: scene@,
                name: name@,
            },
            FilterStep::Create { name, kind, settings } => FilterStepView::Create {
                name: name@,
                kind: kind@,
                settings,
            },
            FilterStep::Mover {
                name,
                kind,
                target,
                value_type,
                duration,
                setup,
            } => FilterStepView::Mover {
                name: name@,
                kind: kind@,
                target: target@,
                value_type,
                duration,
                setup,
            },
        }
    }
}

/// The views of a list of steps.
pub open spec fn filter_step_views(steps: Seq<FilterStep>) -> Seq<FilterStepView> {
    Seq::new(steps.len(), |i: int| steps[i]@)
}

/// A filter of the kind `kind` called `name`, and the filter `mover` that moves
/// its settings within seven seconds.
pub open spec fn filter_and_mover(
    name: Seq<char>,
    kind: Seq<char>,
    settings: Settings,
    mover: Seq<char>,
    value_type: i32,
) -> Seq<FilterStepView> {
    seq![
        FilterStepView::Create { name, kind, settings },
        FilterStepView::Mover {
            name: mover,
            kind: "move_value_filter"@,
            target: name,
            value_type,
            duration: 7000,
            setup: MoverKind::Plain,
        },
    ]
}

fn pair(name: &str, kind: &str, settings: Settings, mover: &str, value_type: i32) -> (steps: Vec<
    FilterStep,
>)
    ensures
        filter_step_views(steps@) == filter_and_mover(
            name@,
            kind@,
            settings,
            mover@,
            value_type,
        ),
{
    let mut steps: Vec<FilterStep> = Vec::new();
    steps.push(
        FilterStep::Create { name: String::from_str(name), kind: String::from_str(kind), settings },
    );
    steps.push(
        FilterStep::Mover {
            name: String::from_str(mover),
            kind: String::from_str("move_value_filter"),
            target: String::from_str(name),
            value_type,
            duration: 7000,
            setup: MoverKind::Plain,
        },
    );
    assert(filter_step_views(steps@) =~= filter_and_mover(
        name@,
        kind@,
        settings,
        mover@,
        value_type,
    ));
    steps
}

/// The filter that transforms a source in space, and its mover.
pub fn create_3d_transform_filters(names: &FilterNames) -> (steps: Vec<FilterStep>)
    ensures
        filter_step_views(steps@) == filter_and_mover(
            names.transform@,
            "streamfx-filter-transform"@,
            Settings::Default,
            "Move_Stream_FX"@,
            0,
        ),
{
    pair(
        names.transform.as_str(),
        "streamfx-filter-transform",
        Settings::Default,
        "Move_Stream_FX",
        0,
    )
}

/// The filter that scrolls a source, and its mover.
pub fn create_scroll_filters() -> (steps: Vec<FilterStep>)
    ensures
        filter_step_views(steps@) == filter_and_mover(
            "Scroll"@,
            "scroll_filter"@,
            Settings::Default,
            "Move_Scroll"@,
            0,
        ),
{
    pair("Scroll", "scroll_filter", Settings::Default, "Move_Scroll", 0)
}

/// The filter that blurs a source, and its mover.
pub fn create_blur_filters(names: &FilterNames) -> (steps: Vec<FilterStep>)
    ensures
        filter_step_views(steps@) == filter_and_mover(
            names.blur@,
            "streamfx-filter-blur"@,
            Settings::Default,
            "Move_Blur"@,
            0,
        ),
{
    pair(names.blur.as_str(), "streamfx-filter-blur", Settings::Default, "Move_Blur", 0)
}

/// What the outline of a source takes: nothing if the source that is set up by
/// hand has no outline to copy; else the filter, set up like that one, and its
/// mover.
pub open spec fn outline_steps(names: FilterNamesView, found: bool) -> Seq<FilterStepView> {
    if found {
        filter_and_mover(
            names.outline,
            "streamfx-filter-sdf-effects"@,
            Settings::LikeDefaultSource,
            "Move_Outline"@,
            1,
        )
    } else {
        Seq::<FilterStepView>::empty()
    }
}

/// The filter that outlines a source, and its mover. `found` tells whether the
/// source that is set up by hand has an outline to copy.
pub fn create_outline_filter(names: &FilterNames, found: bool) -> (steps: Vec<FilterStep>)
    ensures
        filter_step_views(steps@) == outline_steps(names@, found),
{
    if found {
        pair(
            names.outline.as_str(),
            "streamfx-filter-sdf-effects",
            Settings::LikeDefaultSource,
            "Move_Outline",
            1,
        )
    } else {
        let steps: Vec<FilterStep> = Vec::new();
        assert(filter_step_views(steps@) =~= Seq::<FilterStepView>::empty());
        steps
    }
}

/// The transform of one camera: the filter, its mover, and the mover once more
/// with a shorter duration.
pub open spec fn camera_steps(names: FilterNamesView, camera: Seq<char>, number: i32) -> Seq<
    FilterStepView,
> {
    seq![
        FilterStepView::Create {
            name: "3D_"@ + camera,
            kind: names.transform_kind,
            settings: Settings::Camera(number),
        },
        FilterStepView::Mover {
            name: "Move_3D_"@ + camera,
            kind: names.mover_kind,
            target: "3D_"@ + camera,
            value_type: 0,
            duration: 7000,
            setup: MoverKind::Plain,
        },
        FilterStepView::Mover {
            name: "Move_3D_"@ + camera,
            kind: names.mover_kind,
            target: "3D_"@ + camera,
            value_type: 0,
            duration: 3000,
            setup: MoverKind::Plain,
        },
    ]
}

fn camera_filters(names: &FilterNames, camera: &str, number: i32, steps: &mut Vec<FilterStep>)
    ensures
        filter_step_views(final(steps)@) == filter_step_views(old(steps)@) + camera_steps(
            names@,
            camera@,
            number,
        ),
{
    let ghost before = filter_step_views(steps@);
    let mut name = String::from_str("3D_");
    name.append(camera);
    let mut mover = String::from_str("Move_3D_");
    mover.append(camera);
    steps.push(
        FilterStep::Create {
            name: name.clone(),
            kind: names.transform_kind.clone(),
            settings: Settings::Camera(number),
        },
    );
    steps.push(
        FilterStep::Mover {
            name: mover.clone(),
            kind: names.mover_kind.clone(),
            target: name.clone(),
            value_type: 0,
            duration: 7000,
            setup: MoverKind::Plain,
        },
    );
    steps.push(
        FilterStep::Mover {
            name: mover,
            kind: names.mover_kind.clone(),
            target: name,
            value_type: 0,
            duration: 3000,
            setup: MoverKind::Plain,
        },
    );
    assert(filter_step_views(steps@) =~= before + camera_steps(names@, camera@, number));
}

/// One transform for each of the three cameras, numbered from zero.
pub fn create_split_3d_transform_filters(names: &FilterNames) -> (steps: Vec<FilterStep>)
    ensures
        filter_step_views(steps@) == camera_steps(names@, "Orthographic"@, 0) + camera_steps(
            names@,
            "Perspective"@,
            1,
        ) + camera_steps(names@, "CornerPin"@, 2),
{
    let mut steps: Vec<FilterStep> = Vec::new();
    assert(filter_step_views(steps@) =~= Seq::<FilterStepView>::empty());
    camera_filters(names, "Orthographic", 0, &mut steps);
    camera_filters(names, "Perspective", 1, &mut steps);
    camera_filters(names, "CornerPin", 2, &mut steps);
    assert(filter_step_views(steps@) =~= camera_steps(names@, "Orthographic"@, 0) + camera_steps(
        names@,
        "Perspective"@,
        1,
    ) + camera_steps(names@, "CornerPin"@, 2));
    steps
}

/// The removal of every filter of `existing`, in order.
pub open spec fn removals(existing: Seq<Seq<char>>) -> Seq<FilterStepView> {
    Seq::new(existing.len(), |i: int| FilterStepView::Remove { name: existing[i] })
}

/// The filter `name` of the kind of movers, which moves the settings of `target`
/// by the value it is given, within seven seconds.
pub open spec fn final_mover(name: Seq<char>, target: Seq<char>, setup: MoverKind) -> FilterStepView {
    FilterStepView::Mover {
        name,
        kind: "move_value_filter"@,
        target,
        value_type: 1,
        duration: 7000,
        setup,
    }
}

/// What is created for `source` once its old filters are gone: the filter that
/// brings it home; the transform, the scrolling, the blur and the outline, each
/// with its mover; the four movers that every source has; and the filter that
/// moves it about.
pub open spec fn creations(source: Seq<char>, names: FilterNamesView, outline_found: bool) -> Seq<
    FilterStepView,
> {
    seq![
        FilterStepView::MoveSource {
            scene: names.default_scene,
            name: "Move_Source_Home_"@ + source,
        },
    ] + filter_and_mover(
        names.transform,
        "streamfx-filter-transform"@,
        Settings::Default,
        "Move_Stream_FX"@,
        0,
    ) + filter_and_mover("Scroll"@, "scroll_filter"@, Settings::Default, "Move_Scroll"@, 0)
        + filter_and_mover(
        names.blur,
        "streamfx-filter-blur"@,
        Settings::Default,
        "Move_Blur"@,
        0,
    ) + outline_steps(names, outline_found) + seq![
        final_mover(names.transform_mover, names.transform, MoverKind::Plain),
        final_mover(names.scroll_mover, "Scroll"@, MoverKind::Plain),
        final_mover(names.blur_mover, names.blur, MoverKind::Blur),
        final_mover(names.outline_mover, names.outline, MoverKind::Outline),
        FilterStepView::MoveSource { scene: names.default_scene, name: "Move_Source_"@ + source },
    ]
}

/// Everything that is done to set up the filters of `source`, which has the
/// filters `existing`: nothing for the source that is set up by hand; for every
/// other, its filters are removed and the whole set is created anew.
pub open spec fn filter_steps(
    source: Seq<char>,
    names: FilterNamesView,
    existing: Seq<Seq<char>>,
    outline_found: bool,
) -> Seq<FilterStepView> {
    if source == names.default_source {
        Seq::<FilterStepView>::empty()
    } else {
        removals(existing) + creations(source, names, outline_found)
    }
}

fn append_steps(steps: &mut Vec<FilterStep>, more: Vec<FilterStep>)
    ensures
        filter_step_views(final(steps)@) == filter_step_views(old(steps)@) + filter_step_views(
            more@,
        ),
{
    let ghost before = filter_step_views(steps@);
    let ghost added = filter_step_views(more@);
    let mut more = more;
    steps.append(&mut more);
    assert(filter_step_views(steps@) =~= before + added);
}

fn push_final_mover(steps: &mut Vec<FilterStep>, name: &str, target: &str, setup: MoverKind)
    ensures
        filter_step_views(final(steps)@) == filter_step_views(old(steps)@).push(
            final_mover(name@, target@, setup),
        ),
{
    let ghost before = filter_step_views(steps@);
    steps.push(
        FilterStep::Mover {
            name: String::from_str(name),
            kind: String::from_str("move_value_filter"),
            target: String::from_str(target),
            value_type: 1,
            duration: 7000,
            setup,
        },
    );
    assert(filter_step_views(steps@) =~= before.push(final_mover(name@, target@, setup)));
}

/// Everything that is done to set up the filters of `source`, in order.
/// `existing` are the filters that the source has, and `outline_found` tells
/// whether the source that is set up by hand has an outline to copy.
pub fn create_filters_for_source(
    source: &str,
    names: &FilterNames,
    existing: &Vec<String>,
    outline_found: bool,
) -> (steps: Vec<FilterStep>)
    ensures
        filter_step_views(steps@) == filter_steps(
            source@,
            names@,
            views(existing@),
            outline_found,
        ),
{
    let mut steps: Vec<FilterStep> = Vec::new();
    if same(source, names.default_source.as_str()) {
        assert(filter_step_views(steps@) =~= Seq::<FilterStepView>::empty());
        return steps;
    }
    let mut i: usize = 0;
    assert(filter_step_views(steps@) =~= removals(views(existing@)).take(0));
    while i < existing.len()
        invariant
            i <= existing@.len(),
            filter_step_views(steps@) == removals(views(existing@)).take(i as int),
        decreases existing@.len() - i,
    {
        let ghost before = filter_step_views(steps@);
        steps.push(FilterStep::Remove { name: existing[i].clone() });
        assert(filter_step_views(steps@) =~= before.push(
            FilterStepView::Remove { name: existing@[i as int]@ },
        ));
        assert(filter_step_views(steps@) =~= removals(views(existing@)).take(i + 1));
        i = i + 1;
    }
    assert(removals(views(existing@)).take(i as int) =~= removals(views(existing@)));
    let ghost removed = filter_step_views(steps@);
    let mut home = String::from_str("Move_Source_Home_");
    home.append(source);
    steps.push(FilterStep::MoveSource { scene: names.default_scene.clone(), name: home });
    assert(filter_step_views(steps@) =~= removed + seq![
        FilterStepView::MoveSource {
            scene: names@.default_scene,
            name: "Move_Source_Home_"@ + source@,
        },
    ]);
    append_steps(&mut steps, create_3d_transform_filters(names));
    append_steps(&mut steps, create_scroll_filters());
    append_steps(&mut steps, create_blur_filters(names));
    append_steps(&mut steps, create_outline_filter(names, outline_found));
    push_final_mover(
        &mut steps,
        names.transform_mover.as_str(),
        names.transform.as_str(),
        MoverKind::Plain,
    );
    push_final_mover(&mut steps, names.scroll_mover.as_str(), "Scroll", MoverKind::Plain);
    push_final_mover(
        &mut steps,
        names.blur_mover.as_str(),
        names.blur.as_str(),
        MoverKind::Blur,
    );
    push_final_mover(
        &mut steps,
        names.outline_mover.as_str(),
        names.outline.as_str(),
        MoverKind::Outline,
    );
    let mut mover = String::from_str("Move_Source_");
    mover.append(source);
    let ghost so_far = filter_step_views(steps@);
    steps.push(FilterStep::MoveSource { scene: names.default_scene.clone(), name: mover });
    assert(filter_step_views(steps@) =~= so_far.push(
        FilterStepView::MoveSource {
            scene: names@.default_scene,
            name: "Move_Source_"@ + source@,
        },
    ));
    assert(filter_step_views(steps@) =~= removed + creations(source@, names@, outline_found));
    steps
}

/// A file of a folder of music, as far as it is read.
#[derive(Debug, Clone)]
pub struct MusicFile {
    /// The name of the file.
    pub name: String,
    /// What stands behind the last dot of the name, if it is text.
    pub extension: Option<String>,
}

/// Whether a file is a piece of music.
pub open spec fn is_mp3(file: MusicFile) -> bool {
    file.extension is Some && file.extension->0@ == "mp3"@
}

/// The names of the pieces of music among `files`, in order.
pub open spec fn mp3_names(files: Seq<MusicFile>) -> Seq<Seq<char>>
    decreases files.len(),
{
    if files.len() == 0 {
        Seq::<Seq<char>>::empty()
    } else if is_mp3(files.last()) {
        mp3_names(files.drop_last()).push(files.last().name@)
    } else {
        mp3_names(files.drop_last())
    }
}

/// The names of the pieces of music among `files`, in order.
pub fn mp3_files(files: &Vec<MusicFile>) -> (names: Vec<String>)
    ensures
        views(names@) == mp3_names(files@),
{
    let mut names: Vec<String> = Vec::new();
    let mut i: usize = 0;
    assert(files@.take(0) =~= Seq::<MusicFile>::empty());
    while i < files.len()
        invariant
            i <= files@.len(),
            views(names@) == mp3_names(files@.take(i as int)),
        decreases files@.len() - i,
    {
        proof {
            assert(files@.take(i + 1).drop_last() =~= files@.take(i as int));
            assert(files@.take(i + 1).last() == files@[i as int]);
        }
        let is_music = match &files[i].extension {
            Some(extension) => same(extension.as_str(), "mp3"),
            None => false,
        };
        if is_music {
            let ghost before = views(names@);
            names.push(files[i].name.clone());
            assert(views(names@) =~= before.push(files@[i as int].name@));
        }
        i = i + 1;
    }
    assert(files@.take(i as int) =~= files@);
    names
}

/// Where the piece of music called `name` of the playlist `folder_path` is.
pub open spec fn music_path(folder_path: Seq<char>, name: Seq<char>) -> Seq<char> {
    "/home/begin/stream/Stream/BackgroundMusic/"@ + folder_path + "/"@ + name
}

/// The folder of the playlist `folder_path`.
pub fn playlist_folder(folder_path: &str) -> (path: String)
    ensures
        path@ == "/home/begin/stream/Stream/BackgroundMusic/"@ + folder_path@,
{
    let mut path = String::from_str("/home/begin/stream/Stream/BackgroundMusic/");
    path.append(folder_path);
    path
}

/// Where the piece of music at position `pick` among those of `files` is; none
/// when there are not that many pieces of music.
pub fn mp3_file_name(folder_path: &str, files: &Vec<MusicFile>, pick: usize) -> (path: Option<
    String,
>)
    ensures
        path is Some == (pick < mp3_names(files@).len()),
        path is Some ==> path->0@ == music_path(folder_path@, mp3_names(files@)[pick as int]),
{
    let names = mp3_files(files);
    if pick >= names.len() {
        return None;
    }
    let mut path = playlist_folder(folder_path);
    path.append("/");
    path.append(names[pick].as_str());
    Some(path)
}

/// Where a piece of music of the playlist `folder_path` is, drawn at random from
/// those among `files`; none when there is no piece of music.
pub fn get_random_mp3_file_name(folder_path: &str, files: &Vec<MusicFile>) -> (path: Option<String>)
    ensures
        path is Some == (mp3_names(files@).len() > 0),
        path is Some ==> exists|pick: int|
            0 <= pick < mp3_names(files@).len() && path->0@ == music_path(
                folder_path@,
                #[trigger] mp3_names(files@)[pick],
            ),
{
    let names = mp3_files(files);
    if names.len() == 0 {
        return None;
    }
    let pick = random_below(names.len());
    let mut path = playlist_folder(folder_path);
    path.append("/");
    path.append(names[pick].as_str());
    assert(path@ == music_path(folder_path@, mp3_names(files@)[pick as int]));
    Some(path)
}

} // verus!

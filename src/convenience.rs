use crate::command::{decimal, quoted, CommandArgs};
use vstd::prelude::*;
use vstd::utf8::encode_utf8;

verus! {

/// The UTF-8 bytes of a text.
pub open spec fn utf8(s: &str) -> Seq<u8> {
    encode_utf8(s@)
}

/// The arguments of `sub-add` after the mode: the title, then the language.
pub open spec fn subtitle_extras(title: Option<&str>, lang: Option<&str>) -> Seq<Seq<u8>> {
    match (title, lang) {
        (Some(t), Some(l)) => seq![utf8(t), utf8(l)],
        (Some(t), None) => seq![utf8(t)],
        _ => seq![],
    }
}

/// The command line of a screenshot in `mode`, saved to `path` when one is given.
pub open spec fn screenshot_tokens(path: Option<&str>, mode: &str) -> Seq<Seq<u8>> {
    match path {
        Some(p) => seq![utf8("screenshot"), quoted(utf8(p)), utf8(mode)],
        None => seq![utf8("screenshot"), utf8(mode)],
    }
}

/// The command line of `name`, followed by the decimal index when one is given.
pub open spec fn indexed_tokens(name: &str, index: Option<usize>) -> Seq<Seq<u8>> {
    match index {
        Some(i) => seq![utf8(name), decimal(i as int)],
        None => seq![utf8(name)],
    }
}

fn screenshot(path: Option<&str>, mode: &str) -> (r: CommandArgs)
    ensures
        r@ == screenshot_tokens(path, mode),
{
    let mut cmd = CommandArgs::new("screenshot");
    if let Some(p) = path {
        cmd.quoted(p);
    }
    cmd.arg(mode);
    cmd
}

fn indexed(name: &str, index: Option<usize>) -> (r: CommandArgs)
    ensures
        r@ == indexed_tokens(name, index),
{
    let mut cmd = CommandArgs::new(name);
    if let Some(i) = index {
        cmd.unsigned(i as u128);
    }
    cmd
}

fn subtitle_add(path: &str, mode: &str, title: Option<&str>, lang: Option<&str>) -> (r:
    CommandArgs)
    requires
        lang is Some ==> title is Some,
    ensures
        r@ == seq![utf8("sub-add"), quoted(utf8(path)), utf8(mode)] + subtitle_extras(title, lang),
{
    let mut cmd = CommandArgs::new("sub-add");
    cmd.quoted(path);
    cmd.arg(mode);
    if let Some(t) = title {
        cmd.arg(t);
        if let Some(l) = lang {
            cmd.arg(l);
        }
    }
    proof {
        assert(cmd@ =~= seq![utf8("sub-add"), quoted(utf8(path)), utf8(mode)] + subtitle_extras(
            title,
            lang,
        ));
    }
    cmd
}

impl CommandArgs {
    /// `add <property> <value>`: adds `value` to a numeric property.
    pub fn add_property(property: &str, value: isize) -> (r: CommandArgs)
        ensures
            r@ == seq![utf8("add"), utf8(property), decimal(value as int)],
    {
        let mut cmd = CommandArgs::new("add");
        cmd.arg(property);
        cmd.signed(value as i128);
        cmd
    }

    /// `cycle <property> up|down`.
    pub fn cycle_property(property: &str, up: bool) -> (r: CommandArgs)
        ensures
            r@ == seq![utf8("cycle"), utf8(property), utf8(if up { "up" } else { "down" })],
    {
        let mut cmd = CommandArgs::new("cycle");
        cmd.arg(property);
        cmd.arg(if up { "up" } else { "down" });
        cmd
    }

    /// `multiply <property> <factor>`.
    pub fn multiply_property(property: &str, factor: usize) -> (r: CommandArgs)
        ensures
            r@ == seq![utf8("multiply"), utf8(property), decimal(factor as int)],
    {
        let mut cmd = CommandArgs::new("multiply");
        cmd.arg(property);
        cmd.unsigned(factor as u128);
        cmd
    }

    /// `seek <percent> relative-percent`: a relative seek by a share of the
    /// playing time.
    pub fn seek_percent(percent: isize) -> (r: CommandArgs)
        ensures
            r@ == seq![utf8("seek"), decimal(percent as int), utf8("relative-percent")],
    {
        let mut cmd = CommandArgs::new("seek");
        cmd.signed(percent as i128);
        cmd.arg("relative-percent");
        cmd
    }

    /// `seek <percent> absolute-percent`: a seek to the given share of the
    /// playing time.
    pub fn seek_percent_absolute(percent: usize) -> (r: CommandArgs)
        ensures
            r@ == seq![utf8("seek"), decimal(percent as int), utf8("absolute-percent")],
    {
        let mut cmd = CommandArgs::new("seek");
        cmd.unsigned(percent as u128);
        cmd.arg("absolute-percent");
        cmd
    }

    /// `screenshot ["<path>"] subtitles`.
    pub fn screenshot_subtitles(path: Option<&str>) -> (r: CommandArgs)
        ensures
            r@ == screenshot_tokens(path, "subtitles"),
    {
        screenshot(path, "subtitles")
    }

    /// `screenshot ["<path>"] video`.
    pub fn screenshot_video(path: Option<&str>) -> (r: CommandArgs)
        ensures
            r@ == screenshot_tokens(path, "video"),
    {
        screenshot(path, "video")
    }

    /// `screenshot ["<path>"] window`.
    pub fn screenshot_window(path: Option<&str>) -> (r: CommandArgs)
        ensures
            r@ == screenshot_tokens(path, "window"),
    {
        screenshot(path, "window")
    }

    /// `loadlist "<path>" replace|append`.
    pub fn playlist_load_list(path: &str, replace: bool) -> (r: CommandArgs)
        ensures
            r@ == seq![
                utf8("loadlist"),
                quoted(utf8(path)),
                utf8(if replace { "replace" } else { "append" }),
            ],
    {
        let mut cmd = CommandArgs::new("loadlist");
        cmd.quoted(path);
        cmd.arg(if replace { "replace" } else { "append" });
        cmd
    }

    /// `playlist-remove <position>`.
    pub fn playlist_remove_index(position: usize) -> (r: CommandArgs)
        ensures
            r@ == seq![utf8("playlist-remove"), decimal(position as int)],
    {
        indexed("playlist-remove", Some(position))
    }

    /// `playlist-move <old> <new>`: moves the entry at `old` to the place of
    /// the entry at `new`.
    pub fn playlist_move(old: usize, new: usize) -> (r: CommandArgs)
        ensures
            r@ == seq![utf8("playlist-move"), decimal(old as int), decimal(new as int)],
    {
        let mut cmd = CommandArgs::new("playlist-move");
        cmd.unsigned(old as u128);
        cmd.unsigned(new as u128);
        cmd
    }

    /// `sub-add "<path>" select [<title> [<lang>]]`. A language can only be
    /// given together with a title.
    pub fn subtitle_add_select(path: &str, title: Option<&str>, lang: Option<&str>) -> (r:
        CommandArgs)
        requires
            lang is Some ==> title is Some,
        ensures
            r@ == seq![utf8("sub-add"), quoted(utf8(path)), utf8("select")] + subtitle_extras(
                title,
                lang,
            ),
    {
        subtitle_add(path, "select", title, lang)
    }

    /// `sub-add "<path>" auto [<title> [<lang>]]`. A language can only be given
    /// together with a title.
    pub fn subtitle_add_auto(path: &str, title: Option<&str>, lang: Option<&str>) -> (r:
        CommandArgs)
        requires
            lang is Some ==> title is Some,
        ensures
            r@ == seq![utf8("sub-add"), quoted(utf8(path)), utf8("auto")] + subtitle_extras(
                title,
                lang,
            ),
    {
        subtitle_add(path, "auto", title, lang)
    }

    /// `sub-add "<path>" cached`.
    pub fn subtitle_add_cached(path: &str) -> (r: CommandArgs)
        ensures
            r@ == seq![utf8("sub-add"), quoted(utf8(path)), utf8("cached")],
    {
        let cmd = subtitle_add(path, "cached", None, None);
        assert(cmd@ =~= seq![utf8("sub-add"), quoted(utf8(path)), utf8("cached")]);
        cmd
    }

    /// `sub-remove [<index>]`: without an index, the current track.
    pub fn subtitle_remove(index: Option<usize>) -> (r: CommandArgs)
        ensures
            r@ == indexed_tokens("sub-remove", index),
    {
        indexed("sub-remove", index)
    }

    /// `sub-reload [<index>]`: without an index, the current track.
    pub fn subtitle_reload(index: Option<usize>) -> (r: CommandArgs)
        ensures
            r@ == indexed_tokens("sub-reload", index),
    {
        indexed("sub-reload", index)
    }

    /// `sub-step <skip>`; `skip` may be negative.
    pub fn subtitle_step(skip: isize) -> (r: CommandArgs)
        ensures
            r@ == seq![utf8("sub-step"), decimal(skip as int)],
    {
        let mut cmd = CommandArgs::new("sub-step");
        cmd.signed(skip as i128);
        cmd
    }
}

} // verus!

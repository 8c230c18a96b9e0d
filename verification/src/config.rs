//! Persistent window state (size, fullscreen) across sessions, in a
//! `key=value` text format.

use vstd::prelude::*;

use crate::decimal::{
    lemma_parse_decimal_i32, parse_i32, push_decimal_i32, spec_decimal_i32, spec_parse_i32,
    is_digit, lemma_decimal_i32_shape,
};
use crate::text::{
    chars_equal, chars_of, is_whitespace, lemma_split_after_newline, lemma_split_single_line,
    lemma_trim_unpadded, lines_of, no_newline, push_chars, split_lines, starts_with,
    string_from_chars, subrange_chars, trim, trim_chars,
};

verus! {

/// Saved window state.
#[derive(Clone, Copy, Debug)]
pub struct WindowState {
    pub width: i32,
    pub height: i32,
    pub fullscreen: bool,
}

/// Smallest window we'll restore to. A saved `0` or negative width would
/// otherwise be handed straight to GTK as a size request.
pub const MIN_DIM: i32 = 320;

/// Largest window we'll restore to — guards against a corrupt config
/// resurrecting a window bigger than any display.
pub const MAX_DIM: i32 = 16384;

/// The state used when nothing was saved: 1280 × 800, windowed.
pub open spec fn default_state() -> WindowState {
    WindowState { width: 1280, height: 800, fullscreen: false }
}

impl Default for WindowState {
    fn default() -> (state: Self)
        ensures
            state == default_state(),
    {
        WindowState { width: 1280, height: 800, fullscreen: false }
    }
}

/// A dimension that may be restored as it was saved.
pub open spec fn dim_in_range(d: i32) -> bool {
    MIN_DIM <= d <= MAX_DIM
}

/// `state` with each out-of-range dimension replaced by its default.
pub open spec fn with_valid_dims(state: WindowState) -> WindowState {
    WindowState {
        width: if dim_in_range(state.width) {
            state.width
        } else {
            default_state().width
        },
        height: if dim_in_range(state.height) {
            state.height
        } else {
            default_state().height
        },
        fullscreen: state.fullscreen,
    }
}

pub open spec fn width_key() -> Seq<char> {
    seq!['w', 'i', 'd', 't', 'h', '=']
}

pub open spec fn height_key() -> Seq<char> {
    seq!['h', 'e', 'i', 'g', 'h', 't', '=']
}

pub open spec fn fullscreen_key() -> Seq<char> {
    seq!['f', 'u', 'l', 'l', 's', 'c', 'r', 'e', 'e', 'n', '=']
}

pub open spec fn true_word() -> Seq<char> {
    seq!['t', 'r', 'u', 'e']
}

pub open spec fn false_word() -> Seq<char> {
    seq!['f', 'a', 'l', 's', 'e']
}

/// `s` begins with `prefix`.
pub open spec fn has_prefix(s: Seq<char>, prefix: Seq<char>) -> bool {
    prefix.len() <= s.len() && s.take(prefix.len() as int) == prefix
}

/// The effect of one line of the file on the state read so far. The line is
/// trimmed; `width=` and `height=` take a value only when the rest parses as
/// an `i32`, `fullscreen=` is set exactly when the rest is `true`, and every
/// other line changes nothing.
pub open spec fn apply_line(state: WindowState, raw_line: Seq<char>) -> WindowState {
    let line = trim(raw_line);
    if has_prefix(line, width_key()) {
        match spec_parse_i32(line.skip(width_key().len() as int)) {
            Some(v) => WindowState { width: v, ..state },
            None => state,
        }
    } else if has_prefix(line, height_key()) {
        match spec_parse_i32(line.skip(height_key().len() as int)) {
            Some(v) => WindowState { height: v, ..state },
            None => state,
        }
    } else if has_prefix(line, fullscreen_key()) {
        WindowState { fullscreen: line.skip(fullscreen_key().len() as int) == true_word(), ..state }
    } else {
        state
    }
}

/// The state after the lines, in order, starting from the defaults.
pub open spec fn apply_lines(lines: Seq<Seq<char>>) -> WindowState
    decreases lines.len(),
{
    if lines.len() == 0 {
        default_state()
    } else {
        apply_line(apply_lines(lines.drop_last()), lines.last())
    }
}

/// What a config file holding `contents` restores. Lines are split at
/// `'\n'`; a `'\r'` before it is whitespace and goes with the trimming.
pub open spec fn spec_parse(contents: Seq<char>) -> WindowState {
    with_valid_dims(apply_lines(split_lines(contents)))
}

/// `"true"` or `"false"`.
pub open spec fn bool_word(b: bool) -> Seq<char> {
    if b {
        true_word()
    } else {
        false_word()
    }
}

/// The text that stores `state`: one `key=value` line for each field.
pub open spec fn spec_serialize(state: WindowState) -> Seq<char> {
    width_key() + spec_decimal_i32(state.width) + seq!['\n'] + height_key() + spec_decimal_i32(
        state.height,
    ) + seq!['\n'] + fullscreen_key() + bool_word(state.fullscreen) + seq!['\n']
}

/// `base` followed by the relative path component `name`, as
/// `Path::join` forms it on Unix: a `'/'` goes between them unless `base`
/// is empty or already ends in one.
pub open spec fn join_path(base: Seq<char>, name: Seq<char>) -> Seq<char> {
    if base.len() == 0 {
        name
    } else if base.last() == '/' {
        base + name
    } else {
        base + seq!['/'] + name
    }
}

/// Whether `path` is absolute: it begins at the root, `'/'`.
pub open spec fn is_absolute_path(path: Seq<char>) -> bool {
    path.len() > 0 && path[0] == '/'
}

/// `$HOME/.config`, or `./.config` when `HOME` is unset.
pub open spec fn home_config_dir(home: Option<Seq<char>>) -> Seq<char> {
    join_path(
        match home {
            Some(h) => h,
            None => seq!['.'],
        },
        seq!['.', 'c', 'o', 'n', 'f', 'i', 'g'],
    )
}

/// Where the state is kept: `$XDG_CONFIG_HOME/vmlaunch/state.conf`, or
/// under `$HOME/.config` when `XDG_CONFIG_HOME` is unset, empty or relative
/// (the XDG base directory rules ignore such a value), and under
/// `./.config` when `HOME` is unset too.
pub open spec fn spec_config_path(xdg_config_home: Option<Seq<char>>, home: Option<Seq<char>>) -> Seq<
    char,
> {
    let config_dir = match xdg_config_home {
        Some(dir) => if is_absolute_path(dir) {
            dir
        } else {
            home_config_dir(home)
        },
        None => home_config_dir(home),
    };
    join_path(
        join_path(config_dir, seq!['v', 'm', 'l', 'a', 'u', 'n', 'c', 'h']),
        seq!['s', 't', 'a', 't', 'e', '.', 'c', 'o', 'n', 'f'],
    )
}

/// The file name the state file ends in, below its directory.
pub open spec fn state_file_suffix() -> Seq<char> {
    seq!['v', 'm', 'l', 'a', 'u', 'n', 'c', 'h', '/', 's', 't', 'a', 't', 'e', '.', 'c', 'o', 'n', 'f']
}

/// The state file lies in a `vmlaunch` directory under the configuration
/// directory, and its path is absolute whenever `HOME` is set to an absolute
/// path, whatever `XDG_CONFIG_HOME` holds.
pub proof fn lemma_config_path_is_absolute(
    xdg_config_home: Option<Seq<char>>,
    home: Option<Seq<char>>,
)
    ensures
        spec_config_path(xdg_config_home, home).len() >= state_file_suffix().len(),
        spec_config_path(xdg_config_home, home).subrange(
            spec_config_path(xdg_config_home, home).len() - state_file_suffix().len(),
            spec_config_path(xdg_config_home, home).len() as int,
        ) == state_file_suffix(),
        (home matches Some(h) && is_absolute_path(h)) ==> is_absolute_path(
            spec_config_path(xdg_config_home, home),
        ),
{
    let config_dir = match xdg_config_home {
        Some(dir) => if is_absolute_path(dir) {
            dir
        } else {
            home_config_dir(home)
        },
        None => home_config_dir(home),
    };
    let app_name = seq!['v', 'm', 'l', 'a', 'u', 'n', 'c', 'h'];
    let file_name = seq!['s', 't', 'a', 't', 'e', '.', 'c', 'o', 'n', 'f'];
    let app_dir = join_path(config_dir, app_name);
    let path = join_path(app_dir, file_name);
    assert(app_dir.len() >= 8);
    assert(app_dir.subrange(app_dir.len() - 8, app_dir.len() as int) =~= app_name);
    assert(app_dir.last() == 'h');
    assert(path =~= app_dir + seq!['/'] + file_name);
    assert(path.subrange(path.len() - 19, path.len() as int) =~= state_file_suffix());
    if home matches Some(h) && is_absolute_path(h) {
        assert(home_config_dir(home)[0] == '/');
        assert(is_absolute_path(config_dir));
        assert(app_dir[0] == '/');
        assert(path[0] == '/');
    }
}

/// `base` joined with `name`.
fn join_path_chars(base: Vec<char>, name: &[char]) -> (joined: Vec<char>)
    ensures
        joined@ == join_path(base@, name@),
{
    let mut joined = base;
    if joined.len() > 0 && joined[joined.len() - 1] != '/' {
        joined.push('/');
    }
    let ghost start = joined@;
    let mut k: usize = 0;
    while k < name.len()
        invariant
            k <= name@.len(),
            joined@ == start + name@.take(k as int),
        decreases name@.len() - k,
    {
        joined.push(name[k]);
        k += 1;
        assert(joined@ =~= start + name@.take(k as int));
    }
    assert(name@.take(name@.len() as int) =~= name@);
    assert(joined@ =~= join_path(base@, name@));
    joined
}

/// The path of the state file, from the values of the `XDG_CONFIG_HOME` and
/// `HOME` environment variables (`None` when unset). An empty or relative
/// `XDG_CONFIG_HOME` counts as unset.
pub fn config_path(xdg_config_home: Option<&str>, home: Option<&str>) -> (path: String)
    ensures
        path@ == spec_config_path(
            match xdg_config_home {
                Some(dir) => Some(dir@),
                None => None,
            },
            match home {
                Some(h) => Some(h@),
                None => None,
            },
        ),
{
    let dot_config: [char; 7] = ['.', 'c', 'o', 'n', 'f', 'i', 'g'];
    let app_dir: [char; 8] = ['v', 'm', 'l', 'a', 'u', 'n', 'c', 'h'];
    let file_name: [char; 10] = ['s', 't', 'a', 't', 'e', '.', 'c', 'o', 'n', 'f'];
    let xdg_dir = match xdg_config_home {
        Some(dir) => {
            let chars = chars_of(dir);
            if chars.len() > 0 && chars[0] == '/' {
                Some(chars)
            } else {
                None
            }
        },
        None => None,
    };
    let config_dir = match xdg_dir {
        Some(dir) => dir,
        None => {
            let base = match home {
                Some(h) => chars_of(h),
                None => {
                    let mut dot = Vec::new();
                    dot.push('.');
                    dot
                },
            };
            join_path_chars(base, &dot_config)
        },
    };
    let app_path = join_path_chars(config_dir, &app_dir);
    let file_path = join_path_chars(app_path, &file_name);
    assert(dot_config@ =~= seq!['.', 'c', 'o', 'n', 'f', 'i', 'g']);
    assert(app_dir@ =~= seq!['v', 'm', 'l', 'a', 'u', 'n', 'c', 'h']);
    assert(file_name@ =~= seq!['s', 't', 'a', 't', 'e', '.', 'c', 'o', 'n', 'f']);
    string_from_chars(&file_path)
}

/// Applies one line of the file to `state`.
fn apply_line_to(state: &mut WindowState, raw_line: &[char])
    ensures
        *final(state) == apply_line(*old(state), raw_line@),
{
    let line = trim_chars(raw_line);
    let width_prefix: [char; 6] = ['w', 'i', 'd', 't', 'h', '='];
    let height_prefix: [char; 7] = ['h', 'e', 'i', 'g', 'h', 't', '='];
    let fullscreen_prefix: [char; 11] = ['f', 'u', 'l', 'l', 's', 'c', 'r', 'e', 'e', 'n', '='];
    let true_chars: [char; 4] = ['t', 'r', 'u', 'e'];
    assert(width_prefix@ =~= width_key());
    assert(height_prefix@ =~= height_key());
    assert(fullscreen_prefix@ =~= fullscreen_key());
    assert(true_chars@ =~= true_word());
    if starts_with(&line, &width_prefix) {
        let rest = subrange_chars(&line, 6, line.len());
        assert(rest@ =~= line@.skip(6));
        if let Some(v) = parse_i32(&rest) {
            state.width = v;
        }
    } else if starts_with(&line, &height_prefix) {
        let rest = subrange_chars(&line, 7, line.len());
        assert(rest@ =~= line@.skip(7));
        if let Some(v) = parse_i32(&rest) {
            state.height = v;
        }
    } else if starts_with(&line, &fullscreen_prefix) {
        let rest = subrange_chars(&line, 11, line.len());
        assert(rest@ =~= line@.skip(11));
        state.fullscreen = chars_equal(&rest, &true_chars);
    }
}

/// Parse the `key=value` config format into a [`WindowState`].
///
/// Unknown keys, malformed numbers, and out-of-range dimensions all fall back
/// to the corresponding default rather than failing the whole load.
pub fn parse(contents: &str) -> (state: WindowState)
    ensures
        state == spec_parse(contents@),
        dim_in_range(state.width),
        dim_in_range(state.height),
        ({
            let read = apply_lines(split_lines(contents@));
            &&& state.width == (if MIN_DIM <= read.width <= MAX_DIM {
                read.width
            } else {
                1280
            })
            &&& state.height == (if MIN_DIM <= read.height <= MAX_DIM {
                read.height
            } else {
                800
            })
            &&& state.fullscreen == read.fullscreen
        }),
{
    let lines = lines_of(contents);
    let ghost all = split_lines(contents@);
    let mut state = WindowState::default();
    let mut k: usize = 0;
    assert(all.take(0) =~= Seq::<Seq<char>>::empty());
    while k < lines.len()
        invariant
            k <= lines@.len(),
            lines@.len() == all.len(),
            forall|j: int| 0 <= j < lines@.len() ==> #[trigger] lines@[j]@ == all[j],
            state == apply_lines(all.take(k as int)),
        decreases lines@.len() - k,
    {
        apply_line_to(&mut state, &lines[k]);
        assert(all.take(k + 1).drop_last() =~= all.take(k as int));
        k += 1;
    }
    assert(all.take(all.len() as int) =~= all);
    if !(MIN_DIM <= state.width && state.width <= MAX_DIM) {
        state.width = 1280;
    }
    if !(MIN_DIM <= state.height && state.height <= MAX_DIM) {
        state.height = 800;
    }
    state
}

/// Render a [`WindowState`] back to the `key=value` config format.
pub fn serialize(state: &WindowState) -> (text: String)
    ensures
        text@ == spec_serialize(*state),
{
    let width_prefix: [char; 6] = ['w', 'i', 'd', 't', 'h', '='];
    let height_prefix: [char; 7] = ['h', 'e', 'i', 'g', 'h', 't', '='];
    let fullscreen_prefix: [char; 11] = ['f', 'u', 'l', 'l', 's', 'c', 'r', 'e', 'e', 'n', '='];
    let true_chars: [char; 4] = ['t', 'r', 'u', 'e'];
    let false_chars: [char; 5] = ['f', 'a', 'l', 's', 'e'];
    let newline: [char; 1] = ['\n'];
    let mut text = String::new();
    push_chars(&mut text, &width_prefix);
    push_decimal_i32(&mut text, state.width);
    push_chars(&mut text, &newline);
    push_chars(&mut text, &height_prefix);
    push_decimal_i32(&mut text, state.height);
    push_chars(&mut text, &newline);
    push_chars(&mut text, &fullscreen_prefix);
    if state.fullscreen {
        push_chars(&mut text, &true_chars);
    } else {
        push_chars(&mut text, &false_chars);
    }
    push_chars(&mut text, &newline);
    assert(text@ =~= spec_serialize(*state));
    text
}

/// A `key=value` line whose value is a rendered `i32` is one line, and
/// trimming leaves it alone.
proof fn lemma_number_line(key: Seq<char>, v: i32)
    requires
        key.len() > 0,
        no_newline(key),
        !is_whitespace(key[0]),
    ensures
        no_newline(key + spec_decimal_i32(v)),
        trim(key + spec_decimal_i32(v)) == key + spec_decimal_i32(v),
        (key + spec_decimal_i32(v)).take(key.len() as int) == key,
        (key + spec_decimal_i32(v)).skip(key.len() as int) == spec_decimal_i32(v),
{
    lemma_decimal_i32_shape(v);
    let d = spec_decimal_i32(v);
    let line = key + d;
    assert forall|i: int| 0 <= i < line.len() implies line[i] != '\n' by {
        if i >= key.len() {
            assert(line[i] == d[i - key.len()]);
            assert(is_digit(d[i - key.len()]) || d[i - key.len()] == '-');
        }
    }
    assert(line.last() == d.last());
    lemma_trim_unpadded(line);
    assert(line.take(key.len() as int) =~= key);
    assert(line.skip(key.len() as int) =~= d);
}

/// Reading back what [`serialize`] wrote restores the state, except that a
/// dimension outside the accepted range comes back as its default.
pub proof fn lemma_parse_serialize_round_trip(state: WindowState)
    ensures
        spec_parse(spec_serialize(state)) == with_valid_dims(state),
{
    let l1 = width_key() + spec_decimal_i32(state.width);
    let l2 = height_key() + spec_decimal_i32(state.height);
    let l3 = fullscreen_key() + bool_word(state.fullscreen);
    let empty = Seq::<char>::empty();
    let nl = seq!['\n'];
    lemma_number_line(width_key(), state.width);
    lemma_number_line(height_key(), state.height);
    assert(no_newline(l3));
    assert(l3.take(11) =~= fullscreen_key());
    assert(l3.skip(11) =~= bool_word(state.fullscreen));
    lemma_trim_unpadded(l3);
    assert(no_newline(empty));

    lemma_split_single_line(l1);
    lemma_split_after_newline(l1, l2);
    lemma_split_after_newline(l1 + nl + l2, l3);
    lemma_split_after_newline(l1 + nl + l2 + nl + l3, empty);
    let text = spec_serialize(state);
    assert(text =~= l1 + nl + l2 + nl + l3 + nl + empty);
    let lines = split_lines(text);
    assert(lines =~= seq![l1, l2, l3, empty]);
    assert(lines.drop_last() =~= seq![l1, l2, l3]);
    assert(seq![l1, l2, l3].drop_last() =~= seq![l1, l2]);
    assert(seq![l1, l2].drop_last() =~= seq![l1]);
    assert(seq![l1].drop_last() =~= Seq::<Seq<char>>::empty());

    lemma_parse_decimal_i32(state.width);
    lemma_parse_decimal_i32(state.height);
    // Lines are told apart by their first character.
    assert(l2.take(6)[0] != width_key()[0]);
    assert(l3.take(6)[0] != width_key()[0]);
    assert(l3.take(7)[0] != height_key()[0]);
    assert(true_word() != false_word()) by {
        assert(true_word().len() != false_word().len());
    }
    assert(trim(empty) =~= empty);
    let s1 = apply_line(default_state(), l1);
    assert(s1 == WindowState { width: state.width, ..default_state() });
    let s2 = apply_line(s1, l2);
    assert(s2 == WindowState { height: state.height, ..s1 });
    let s3 = apply_line(s2, l3);
    assert(s3 == WindowState { fullscreen: state.fullscreen, ..s2 });
    assert(apply_line(s3, empty) == s3);
    assert(apply_lines(Seq::<Seq<char>>::empty()) == default_state());
    assert(apply_lines(seq![l1]) == s1);
    assert(apply_lines(seq![l1, l2]) == s2);
    assert(apply_lines(seq![l1, l2, l3]) == s3);
    assert(apply_lines(lines) == s3);
}

/// A state whose dimensions are in range survives a save and a load
/// unchanged.
pub proof fn lemma_round_trip_in_range(state: WindowState)
    requires
        dim_in_range(state.width),
        dim_in_range(state.height),
    ensures
        spec_parse(spec_serialize(state)) == state,
{
    lemma_parse_serialize_round_trip(state);
}

/// Saving what was loaded and loading it again gives the same state: a
/// loaded state always survives the round trip.
pub proof fn lemma_reload_is_stable(contents: Seq<char>)
    ensures
        spec_parse(spec_serialize(spec_parse(contents))) == spec_parse(contents),
{
    lemma_parse_serialize_round_trip(spec_parse(contents));
}

} // verus!

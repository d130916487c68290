use crate::player_info::{default_player_view, PlayerInfo, PlayerInfoView, RepeatState};
use crate::track_info::{
    default_track_view, not_available, not_available_string, TrackInfo, TrackInfoView,
};
use vstd::prelude::*;

verus! {

/// What is playing, as the streaming service describes it.
pub enum PlayableItem {
    /// A track: its name, the names of its artists and its length in milliseconds.
    Track { name: String, artists: Vec<String>, duration_ms: i64 },
    /// A podcast episode: its name, its show's publisher and its length in milliseconds.
    Episode { name: String, publisher: String, duration_ms: i64 },
    /// An item of a kind that is not understood.
    Unknown,
}

/// The playback state that the streaming service reports.
pub struct PlaybackContext {
    pub device_name: String,
    pub volume_percent: Option<u32>,
    pub repeat_state: RepeatState,
    pub shuffle_state: bool,
    /// Playback position in milliseconds.
    pub progress_ms: Option<i64>,
    pub is_playing: bool,
    pub item: Option<PlayableItem>,
}

/// What the user interface shows: the player and the item playing.
#[derive(Clone, Debug, PartialEq)]
pub struct Data {
    pub player: PlayerInfo,
    pub track: TrackInfo,
}

/// The mathematical content of a `Data`.
pub struct DataView {
    pub player: PlayerInfoView,
    pub track: TrackInfoView,
}

impl View for Data {
    type V = DataView;

    open spec fn view(&self) -> DataView {
        DataView { player: self.player@, track: self.track@ }
    }
}

/// The default player and the default track information.
pub open spec fn default_data_view() -> DataView {
    DataView { player: default_player_view(), track: default_track_view() }
}

/// The shown data for a reported playback state: the player fields as
/// reported (a missing volume counts as zero, truncated to a `u8`), and the
/// track information that `item_summary` gives.
pub open spec fn context_view(ctx: PlaybackContext) -> DataView {
    let item = item_summary(ctx.item);
    DataView {
        player: PlayerInfoView {
            is_playing: ctx.is_playing,
            shuffle_state: ctx.shuffle_state,
            repeat_state: ctx.repeat_state,
            device_name: ctx.device_name@,
            volume: (match ctx.volume_percent {
                Some(v) => v,
                None => 0u32,
            }) as u8,
            progress_ms: ctx.progress_ms,
        },
        track: TrackInfoView { title: item.0, authors: item.1, duration: item.2 },
    }
}

/// The shown data for the outcome of asking for the playback state: the
/// default data when there is no report.
pub open spec fn report_view(report: Option<PlaybackContext>) -> DataView {
    match report {
        Some(ctx) => context_view(ctx),
        None => default_data_view(),
    }
}

/// The separator between artist names.
pub open spec fn artist_separator() -> Seq<char> {
    seq![',', ' ']
}

/// The parts, in order, with `sep` between each two neighbours.
pub open spec fn join(parts: Seq<Seq<char>>, sep: Seq<char>) -> Seq<char>
    decreases parts.len(),
{
    if parts.len() == 0 {
        seq![]
    } else if parts.len() == 1 {
        parts[0]
    } else {
        join(parts.drop_last(), sep) + sep + parts.last()
    }
}

/// The texts of a sequence of strings.
pub open spec fn texts(v: Seq<String>) -> Seq<Seq<char>> {
    v.map_values(|s: String| s@)
}

/// The title, the authors and the length that the item gives the track
/// information: for a track its artists joined by `, `, for an episode its
/// publisher, otherwise `N/A` twice and zero. The length is the item's
/// millisecond count truncated to an `i32`.
pub open spec fn item_summary(item: Option<PlayableItem>) -> (Seq<char>, Seq<char>, i32) {
    match item {
        Some(PlayableItem::Track { name, artists, duration_ms }) => (
            name@,
            join(texts(artists@), artist_separator()),
            duration_ms as i32,
        ),
        Some(PlayableItem::Episode { name, publisher, duration_ms }) => (
            name@,
            publisher@,
            duration_ms as i32,
        ),
        _ => (not_available(), not_available(), 0i32),
    }
}

/// Joins the names with `, `.
pub fn join_names(names: &Vec<String>) -> (r: String)
    ensures
        r@ == join(texts(names@), artist_separator()),
{
    proof {
        reveal_strlit(", ");
    }
    let ghost parts = texts(names@);
    let mut r = String::new();
    let mut i: usize = 0;
    while i < names.len()
        invariant
            i <= names.len(),
            parts == texts(names@),
            parts.len() == names.len(),
            r@ == join(parts.take(i as int), artist_separator()),
        decreases names.len() - i,
    {
        let ghost before = r@;
        if i > 0 {
            r.append(", ");
        }
        r.append(names[i].as_str());
        proof {
            reveal_strlit(", ");
            let next = parts.take(i as int + 1);
            assert(next.drop_last() =~= parts.take(i as int));
            assert(next.last() == names@[i as int]@);
            if i == 0 {
                assert(r@ =~= join(next, artist_separator()));
            } else {
                assert(r@ =~= before + artist_separator() + next.last());
            }
        }
        i = i + 1;
    }
    proof {
        assert(parts.take(names.len() as int) =~= parts);
    }
    r
}

/// Truncates a millisecond count to an `i32`, as `as i32` does.
#[verifier::truncate]
fn truncate_ms(ms: i64) -> (r: i32)
    ensures
        r == ms as i32,
{
    ms as i32
}

/// Truncates a volume percentage to a `u8`, as `as u8` does.
#[verifier::truncate]
fn truncate_volume(v: u32) -> (r: u8)
    ensures
        r == v as u8,
{
    v as u8
}

impl Data {
    /// The shown data for a reported playback state.
    pub fn from_context(ctx: PlaybackContext) -> (r: Self)
        ensures
            r@ == context_view(ctx),
            r.player.is_playing == ctx.is_playing,
            r.player.shuffle_state == ctx.shuffle_state,
            r.player.repeat_state == ctx.repeat_state,
            r.player.device_name@ == ctx.device_name@,
            r.player.progress_ms == ctx.progress_ms,
            ctx.volume_percent is None ==> r.player.volume == 0,
            forall|v: u32| ctx.volume_percent == Some(v) && v <= 255 ==> r.player.volume == v,
    {
        let ghost item = ctx.item;
        let (title, authors, duration): (String, String, i32) = match ctx.item {
            Some(PlayableItem::Track { name, artists, duration_ms }) => {
                let joined = join_names(&artists);
                (name, joined, truncate_ms(duration_ms))
            },
            Some(PlayableItem::Episode { name, publisher, duration_ms }) => {
                (name, publisher, truncate_ms(duration_ms))
            },
            _ => (not_available_string(), not_available_string(), 0),
        };
        let volume = truncate_volume(
            match ctx.volume_percent {
                Some(v) => v,
                None => 0,
            },
        );
        Data {
            player: PlayerInfo {
                is_playing: ctx.is_playing,
                shuffle_state: ctx.shuffle_state,
                repeat_state: ctx.repeat_state,
                device_name: ctx.device_name,
                volume,
                progress_ms: ctx.progress_ms,
            },
            track: TrackInfo { title, authors, duration },
        }
    }
}

impl Default for Data {
    /// The default player and the default track information.
    fn default() -> (r: Self)
        ensures
            r@ == default_data_view(),
    {
        Data { player: PlayerInfo::default(), track: TrackInfo::default() }
    }
}

/// The player fields of the shown data are the reported ones: playing,
/// shuffling, repeat mode, device name and position are taken over as they
/// are, a volume that fits a `u8` is taken over as it is, and a missing
/// volume shows as zero.
pub proof fn lemma_report_player_fields(ctx: PlaybackContext)
    ensures
        context_view(ctx).player.is_playing == ctx.is_playing,
        context_view(ctx).player.shuffle_state == ctx.shuffle_state,
        context_view(ctx).player.repeat_state == ctx.repeat_state,
        context_view(ctx).player.device_name == ctx.device_name@,
        context_view(ctx).player.progress_ms == ctx.progress_ms,
        ctx.volume_percent is None ==> context_view(ctx).player.volume == 0,
        forall|v: u32|
            ctx.volume_percent == Some(v) && v <= 255 ==> context_view(ctx).player.volume == v,
        report_view(Some(ctx)) == context_view(ctx),
{
}

/// The track fields of the shown data: a track shows its name and its artists
/// (one artist alone, two joined with `, `), an episode its name and its
/// publisher, and the length of a track or an episode that fits an `i32` is
/// taken over as it is; without an understood item both texts are `N/A`
/// and the length is zero.
pub proof fn lemma_report_track_fields(ctx: PlaybackContext)
    ensures
        ctx.item matches Some(PlayableItem::Track { name, artists, duration_ms }) ==> {
            &&& context_view(ctx).track.title == name@
            &&& artists@.len() == 0 ==> context_view(ctx).track.authors == Seq::<char>::empty()
            &&& artists@.len() == 1 ==> context_view(ctx).track.authors == artists@[0]@
            &&& artists@.len() == 2 ==> context_view(ctx).track.authors == artists@[0]@ + seq![
                ',',
                ' ',
            ] + artists@[1]@
            &&& i32::MIN <= duration_ms <= i32::MAX ==> context_view(ctx).track.duration
                == duration_ms
        },
        ctx.item matches Some(PlayableItem::Episode { name, publisher, duration_ms }) ==> {
            &&& context_view(ctx).track.title == name@
            &&& context_view(ctx).track.authors == publisher@
            &&& i32::MIN <= duration_ms <= i32::MAX ==> context_view(ctx).track.duration
                == duration_ms
        },
        (ctx.item is None || ctx.item == Some(PlayableItem::Unknown)) ==> {
            &&& context_view(ctx).track.title == seq!['N', '/', 'A']
            &&& context_view(ctx).track.authors == seq!['N', '/', 'A']
            &&& context_view(ctx).track.duration == 0
        },
{
    match ctx.item {
        Some(PlayableItem::Track { name, artists, duration_ms }) => {
            let parts = texts(artists@);
            assert(context_view(ctx).track.authors == join(parts, artist_separator()));
            if artists@.len() == 1 {
                assert(parts[0] == artists@[0]@);
            }
            if artists@.len() == 2 {
                assert(parts.drop_last().len() == 1);
                assert(parts.drop_last()[0] == artists@[0]@);
                assert(parts.last() == artists@[1]@);
                assert(join(parts.drop_last(), artist_separator()) == artists@[0]@);
            }
            if i32::MIN <= duration_ms <= i32::MAX {
                assert(duration_ms as i32 == duration_ms);
            }
        },
        _ => {},
    }
}

} // verus!

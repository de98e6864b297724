//! Track metadata and the rules that build it from a file's tags and stream
//! parameters.
use vstd::prelude::*;

verus! {

/// One playable file: its path, the title and artist read from its tags, and
/// its duration in whole seconds.
#[derive(Debug)]
pub struct TrackMetadata {
    pub path: String,
    pub title: String,
    pub artist: String,
    pub duration: u32,
}

/// The mathematical value of a `TrackMetadata`.
pub struct TrackView {
    pub path: Seq<char>,
    pub title: Seq<char>,
    pub artist: Seq<char>,
    pub duration: u32,
}

impl View for TrackMetadata {
    type V = TrackView;

    open spec fn view(&self) -> TrackView {
        TrackView {
            path: self.path@,
            title: self.title@,
            artist: self.artist@,
            duration: self.duration,
        }
    }
}

impl TrackMetadata {
    /// A field-by-field copy.
    pub fn copied(&self) -> (r: TrackMetadata)
        ensures
            r@ == self@,
    {
        TrackMetadata {
            path: self.path.clone(),
            title: self.title.clone(),
            artist: self.artist.clone(),
            duration: self.duration,
        }
    }
}


/// A frame of an ID3 tag as the tag reader hands it over: its four-letter id,
/// and its text where the frame holds text.
#[derive(Debug)]
pub struct TagFrame {
    pub id: String,
    pub text: Option<String>,
}

/// Why a file's metadata could not be read.
#[derive(Debug, PartialEq, Eq, Structural)]
pub enum MetadataError {
    /// The file has no readable tag.
    UnreadableTag,
    /// The stream gives no sample rate or frame count, or a zero rate.
    UnknownDuration,
}

pub open spec fn title_id() -> Seq<char> {
    "TIT2"@
}

pub open spec fn artist_id() -> Seq<char> {
    "TPE1"@
}

pub open spec fn unknown() -> Seq<char> {
    "Unknown"@
}

/// The text of the last text frame with the given id, if any.
pub open spec fn tag_text(frames: Seq<TagFrame>, id: Seq<char>) -> Option<Seq<char>>
    decreases frames.len(),
{
    if frames.len() == 0 {
        None
    } else if frames.last().id@ == id && frames.last().text is Some {
        Some(frames.last().text->Some_0@)
    } else {
        tag_text(frames.drop_last(), id)
    }
}

/// A tag field's value, or "Unknown" where the tag lacks it.
pub open spec fn tag_field(frames: Seq<TagFrame>, id: Seq<char>) -> Seq<char> {
    match tag_text(frames, id) {
        Some(t) => t,
        None => unknown(),
    }
}

/// Whole seconds of `n_frames` frames at `sample_rate` frames per second,
/// capped at `u32::MAX`.
pub open spec fn duration_secs(n_frames: u64, sample_rate: u32) -> u32
    recommends
        sample_rate > 0,
{
    let s = n_frames as int / sample_rate as int;
    if s <= u32::MAX {
        s as u32
    } else {
        u32::MAX
    }
}

/// The duration of a stream in whole seconds, from its frame count and its
/// sample rate; an error where either is missing or the rate is zero.
pub fn get_audio_duration(sample_rate: Option<u32>, n_frames: Option<u64>) -> (r: Result<
    u32,
    MetadataError,
>)
    ensures
        match (sample_rate, n_frames) {
            (Some(rate), Some(n)) if rate > 0 => r == Ok::<u32, MetadataError>(
                duration_secs(n, rate),
            ),
            _ => r == Err::<u32, MetadataError>(MetadataError::UnknownDuration),
        },
{
    match (sample_rate, n_frames) {
        (Some(rate), Some(n)) => {
            if rate == 0 {
                Err(MetadataError::UnknownDuration)
            } else {
                let s: u64 = n / (rate as u64);
                if s <= u32::MAX as u64 {
                    Ok(s as u32)
                } else {
                    Ok(u32::MAX)
                }
            }
        },
        _ => Err(MetadataError::UnknownDuration),
    }
}

/// The value of a tag field: the text of the last text frame with id `id`,
/// or "Unknown".
fn field_from_frames(frames: &Vec<TagFrame>, id: &String) -> (r: String)
    ensures
        r@ == tag_field(frames@, id@),
{
    let mut value: Option<String> = None;
    let mut i: usize = 0;
    while i < frames.len()
        invariant
            i <= frames@.len(),
            match value {
                Some(v) => tag_text(frames@.take(i as int), id@) == Some(v@),
                None => tag_text(frames@.take(i as int), id@) is None,
            },
        decreases frames.len() - i,
    {
        let f = &frames[i];
        assert(frames@.take(i + 1).drop_last() =~= frames@.take(i as int));
        if f.id == *id {
            match &f.text {
                Some(t) => {
                    value = Some(t.clone());
                },
                None => {},
            }
        }
        i = i + 1;
    }
    assert(frames@.take(frames@.len() as int) =~= frames@);
    match value {
        Some(v) => v,
        None => "Unknown".to_owned(),
    }
}

/// The metadata of the file at `path`, from its tag's frames (`None` where
/// the tag could not be read) and its stream's parameters.
pub fn get_song_infos_from_file(
    path: &str,
    tag: Option<Vec<TagFrame>>,
    sample_rate: Option<u32>,
    n_frames: Option<u64>,
) -> (r: Result<TrackMetadata, MetadataError>)
    ensures
        tag is None ==> r == Err::<TrackMetadata, MetadataError>(MetadataError::UnreadableTag),
        tag is Some ==> match (sample_rate, n_frames) {
            (Some(rate), Some(n)) if rate > 0 => r matches Ok(t) && t@ == (TrackView {
                path: path@,
                title: tag_field(tag->Some_0@, title_id()),
                artist: tag_field(tag->Some_0@, artist_id()),
                duration: duration_secs(n, rate),
            }),
            _ => r == Err::<TrackMetadata, MetadataError>(MetadataError::UnknownDuration),
        },
{
    match tag {
        None => Err(MetadataError::UnreadableTag),
        Some(frames) => {
            let duration = match get_audio_duration(sample_rate, n_frames) {
                Ok(d) => d,
                Err(e) => {
                    return Err(e);
                },
            };
            let title = field_from_frames(&frames, &"TIT2".to_owned());
            let artist = field_from_frames(&frames, &"TPE1".to_owned());
            Ok(TrackMetadata { path: path.to_owned(), title, artist, duration })
        },
    }
}
} // verus!

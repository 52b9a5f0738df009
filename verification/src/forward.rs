//! Turning the content of a received message into content that can be sent
//! again, for reposting a message without a forward header.
//!
//! The shapes follow TDLib's: files are referred to by their ids, and what
//! is passed through unchanged (text entities, locations, venues, contacts,
//! link preview options, thumbnails) stays abstract as `E` and `O`.
use vstd::prelude::*;

verus! {

/// A text with its entities.
pub struct FormattedText<E> {
    pub text: String,
    pub entities: Vec<E>,
}

pub struct Animation {
    pub animation: i32,
    pub duration: i32,
    pub width: i32,
    pub height: i32,
}

pub struct Audio {
    pub audio: i32,
    pub duration: i32,
    pub title: String,
    pub performer: String,
}

pub struct Document {
    pub document: i32,
    pub file_name: String,
}

pub struct PhotoSize {
    pub photo: i32,
    pub width: i32,
    pub height: i32,
}

pub struct Sticker {
    pub sticker: i32,
    pub width: i32,
    pub height: i32,
    pub emoji: String,
}

pub struct Video {
    pub video: i32,
    pub duration: i32,
    pub width: i32,
    pub height: i32,
    pub supports_streaming: bool,
}

pub struct VideoNote {
    pub video: i32,
    pub duration: i32,
    pub length: i32,
}

pub struct VoiceNote {
    pub voice: i32,
    pub duration: i32,
    pub waveform: String,
}

pub struct PollOption<E> {
    pub text: FormattedText<E>,
}

pub enum PollType<E> {
    Regular,
    Quiz { correct_option_ids: Vec<i32>, explanation: FormattedText<E> },
}

pub struct Poll<E> {
    pub question: FormattedText<E>,
    pub options: Vec<PollOption<E>>,
    pub is_anonymous: bool,
    pub allows_multiple_answers: bool,
    pub allows_revoting: bool,
    pub members_only: bool,
    pub country_codes: Vec<String>,
    pub poll_type: PollType<E>,
    pub open_period: i32,
    pub close_date: i32,
    pub is_closed: bool,
}

pub struct ChecklistTask<E> {
    pub id: i32,
    pub text: FormattedText<E>,
}

pub struct Checklist<E> {
    pub title: FormattedText<E>,
    pub tasks: Vec<ChecklistTask<E>>,
    pub others_can_add_tasks: bool,
    pub others_can_mark_tasks_as_done: bool,
}

/// The content of a received message.
pub enum MessageContent<E, O> {
    MessageText { text: FormattedText<E>, link_preview_options: Option<O> },
    MessageAnimation {
        animation: Animation,
        caption: FormattedText<E>,
        show_caption_above_media: bool,
        has_spoiler: bool,
    },
    MessageAudio { audio: Audio, caption: FormattedText<E> },
    MessageDocument { document: Document, caption: FormattedText<E> },
    MessagePaidMedia { star_count: i64, caption: FormattedText<E>, show_caption_above_media: bool },
    MessagePhoto {
        sizes: Vec<PhotoSize>,
        caption: FormattedText<E>,
        show_caption_above_media: bool,
        has_spoiler: bool,
    },
    MessageSticker { sticker: Sticker },
    MessageVideo {
        video: Video,
        caption: FormattedText<E>,
        show_caption_above_media: bool,
        has_spoiler: bool,
    },
    MessageVideoNote { video_note: VideoNote },
    MessageVoiceNote { voice_note: VoiceNote, caption: FormattedText<E> },
    MessageLiveLocation { location: O },
    MessageLocation { location: O },
    MessageVenue { venue: O },
    MessageContact { contact: O },
    MessageDice { emoji: String },
    MessageGame { short_name: String },
    MessageInvoice,
    MessagePoll { poll: Poll<E> },
    MessageChecklist { list: Checklist<E> },
    MessageStory { story_poster_chat_id: i64, story_id: i32 },
    /// service messages, payments, gifts and every other kind
    Other,
}

/// A file to send: one already on the server, or one on disk.
pub enum InputFile {
    Id { id: i32 },
    Local { path: String },
}

pub struct InputAnimation<O> {
    pub animation: InputFile,
    pub thumbnail: Option<O>,
    pub added_sticker_file_ids: Vec<i32>,
    pub duration: i32,
    pub width: i32,
    pub height: i32,
}

pub struct InputAudio<O> {
    pub audio: InputFile,
    pub album_cover_thumbnail: Option<O>,
    pub duration: i32,
    pub title: String,
    pub performer: String,
}

pub struct InputDocument<O> {
    pub document: InputFile,
    pub thumbnail: Option<O>,
    pub disable_content_type_detection: bool,
}

pub struct InputPhoto<O> {
    pub photo: InputFile,
    pub thumbnail: Option<O>,
    pub video: Option<O>,
    pub added_sticker_file_ids: Vec<i32>,
    pub width: i32,
    pub height: i32,
}

pub struct InputSticker<O> {
    pub sticker: InputFile,
    pub thumbnail: Option<O>,
    pub width: i32,
    pub height: i32,
}

pub struct InputVideo<O> {
    pub video: InputFile,
    pub thumbnail: Option<O>,
    pub cover: Option<O>,
    pub start_timestamp: i32,
    pub added_sticker_file_ids: Vec<i32>,
    pub duration: i32,
    pub width: i32,
    pub height: i32,
    pub supports_streaming: bool,
}

pub struct InputVideoNote<O> {
    pub video_note: InputFile,
    pub thumbnail: Option<O>,
    pub duration: i32,
    pub length: i32,
}

pub struct InputVoiceNote {
    pub voice_note: InputFile,
    pub duration: i32,
    pub waveform: String,
}

pub struct InputPollOption<E, O> {
    pub text: FormattedText<E>,
    pub media: Option<O>,
}

pub enum InputPollType<E, O> {
    Regular { allow_adding_options: bool },
    Quiz {
        correct_option_ids: Vec<i32>,
        explanation: FormattedText<E>,
        explanation_media: Option<O>,
    },
}

pub struct InputChecklistTask<E> {
    pub id: i32,
    pub text: FormattedText<E>,
}

pub struct InputChecklist<E> {
    pub title: FormattedText<E>,
    pub tasks: Vec<InputChecklistTask<E>>,
    pub others_can_add_tasks: bool,
    pub others_can_mark_tasks_as_done: bool,
}

/// The content of a message to send.
pub enum InputMessageContent<E, O> {
    InputMessageText {
        text: FormattedText<E>,
        link_preview_options: Option<O>,
        clear_draft: bool,
    },
    InputMessageAnimation {
        animation: InputAnimation<O>,
        caption: Option<FormattedText<E>>,
        show_caption_above_media: bool,
        has_spoiler: bool,
    },
    InputMessageAudio { audio: InputAudio<O>, caption: Option<FormattedText<E>> },
    InputMessageDocument { document: InputDocument<O>, caption: Option<FormattedText<E>> },
    InputMessagePaidMedia {
        star_count: i64,
        paid_media: Vec<O>,
        caption: Option<FormattedText<E>>,
        show_caption_above_media: bool,
        payload: String,
    },
    InputMessagePhoto {
        photo: InputPhoto<O>,
        caption: Option<FormattedText<E>>,
        show_caption_above_media: bool,
        self_destruct_type: Option<O>,
        has_spoiler: bool,
    },
    InputMessageSticker { sticker: InputSticker<O>, emoji: String },
    InputMessageVideo {
        video: InputVideo<O>,
        caption: Option<FormattedText<E>>,
        show_caption_above_media: bool,
        self_destruct_type: Option<O>,
        has_spoiler: bool,
    },
    InputMessageVideoNote { video_note: InputVideoNote<O>, self_destruct_type: Option<O> },
    InputMessageVoiceNote {
        voice_note: InputVoiceNote,
        caption: Option<FormattedText<E>>,
        self_destruct_type: Option<O>,
    },
    InputMessageLiveLocation { location: O },
    InputMessageLocation { location: O },
    InputMessageVenue { venue: O },
    InputMessageContact { contact: O },
    InputMessageDice { emoji: String, clear_draft: bool },
    InputMessageGame { bot_user_id: i64, game_short_name: String },
    InputMessagePoll {
        question: FormattedText<E>,
        options: Vec<InputPollOption<E, O>>,
        description: FormattedText<E>,
        media: Option<O>,
        is_anonymous: bool,
        allows_multiple_answers: bool,
        allows_revoting: bool,
        members_only: bool,
        country_codes: Vec<String>,
        shuffle_options: bool,
        hide_results_until_closes: bool,
        poll_type: InputPollType<E, O>,
        open_period: i32,
        close_date: i32,
        is_closed: bool,
    },
    InputMessageChecklist { checklist: InputChecklist<E> },
    InputMessageStory { story_poster_chat_id: i64, story_id: i32 },
}

/// The poll options as options to send, without media.
pub open spec fn input_options<E, O>(options: Seq<PollOption<E>>) -> Seq<InputPollOption<E, O>> {
    options.map_values(|o: PollOption<E>| InputPollOption { text: o.text, media: None })
}

/// The checklist tasks as tasks to send.
pub open spec fn input_tasks<E>(tasks: Seq<ChecklistTask<E>>) -> Seq<InputChecklistTask<E>> {
    tasks.map_values(|t: ChecklistTask<E>| InputChecklistTask { id: t.id, text: t.text })
}

/// What a received content is sent as again, file by file id, with no
/// thumbnails, covers, media or self-destruction; a photo is sent in its
/// last (largest) size; invoices, photos without sizes and contents that
/// have no sendable form give `None`. `r` is what `c` is sent as.
pub open spec fn resends_as<E, O>(c: MessageContent<E, O>, r: Option<InputMessageContent<E, O>>) -> bool {
    match c {
        MessageContent::MessageText { text, link_preview_options } => r == Some(
            InputMessageContent::<E, O>::InputMessageText { text, link_preview_options, clear_draft: false },
        ),
        MessageContent::MessageAnimation { animation, caption, show_caption_above_media, has_spoiler } => {
            &&& r matches Some(InputMessageContent::<E, O>::InputMessageAnimation { animation: a, caption: cap, show_caption_above_media: s, has_spoiler: h })
            &&& a.animation == InputFile::Id { id: animation.animation }
            &&& a.thumbnail is None
            &&& a.added_sticker_file_ids@.len() == 0
            &&& a.duration == animation.duration && a.width == animation.width && a.height == animation.height
            &&& cap == Some(caption) && s == show_caption_above_media && h == has_spoiler
        },
        MessageContent::MessageAudio { audio, caption } => r == Some(
            InputMessageContent::<E, O>::InputMessageAudio {
                audio: InputAudio {
                    audio: InputFile::Id { id: audio.audio },
                    album_cover_thumbnail: None,
                    duration: audio.duration,
                    title: audio.title,
                    performer: audio.performer,
                },
                caption: Some(caption),
            },
        ),
        MessageContent::MessageDocument { document, caption } => r == Some(
            InputMessageContent::<E, O>::InputMessageDocument {
                document: InputDocument {
                    document: InputFile::Id { id: document.document },
                    thumbnail: None,
                    disable_content_type_detection: false,
                },
                caption: Some(caption),
            },
        ),
        MessageContent::MessagePaidMedia { star_count, caption, show_caption_above_media } => {
            &&& r matches Some(InputMessageContent::<E, O>::InputMessagePaidMedia { star_count: n, paid_media, caption: cap, show_caption_above_media: s, payload })
            &&& n == star_count && paid_media@.len() == 0 && cap == Some(caption)
            &&& s == show_caption_above_media && payload@.len() == 0
        },
        MessageContent::MessagePhoto { sizes, caption, show_caption_above_media, has_spoiler } => if sizes@.len() == 0 {
            r is None
        } else {
            let last = sizes@.last();
            &&& r matches Some(InputMessageContent::<E, O>::InputMessagePhoto { photo: p, caption: cap, show_caption_above_media: s, self_destruct_type: d, has_spoiler: h })
            &&& p.photo == InputFile::Id { id: last.photo }
            &&& p.thumbnail is None && p.video is None
            &&& p.added_sticker_file_ids@.len() == 0
            &&& p.width == last.width && p.height == last.height
            &&& cap == Some(caption) && s == show_caption_above_media && d is None && h == has_spoiler
        },
        MessageContent::MessageSticker { sticker } => r == Some(
            InputMessageContent::<E, O>::InputMessageSticker {
                sticker: InputSticker {
                    sticker: InputFile::Id { id: sticker.sticker },
                    thumbnail: None,
                    width: sticker.width,
                    height: sticker.height,
                },
                emoji: sticker.emoji,
            },
        ),
        MessageContent::MessageVideo { video, caption, show_caption_above_media, has_spoiler } => {
            &&& r matches Some(InputMessageContent::<E, O>::InputMessageVideo { video: v, caption: cap, show_caption_above_media: s, self_destruct_type: d, has_spoiler: h })
            &&& v.video == InputFile::Id { id: video.video }
            &&& v.thumbnail is None && v.cover is None && v.start_timestamp == 0
            &&& v.added_sticker_file_ids@.len() == 0
            &&& v.duration == video.duration && v.width == video.width && v.height == video.height
            &&& v.supports_streaming == video.supports_streaming
            &&& cap == Some(caption) && s == show_caption_above_media && d is None && h == has_spoiler
        },
        MessageContent::MessageVideoNote { video_note } => r == Some(
            InputMessageContent::<E, O>::InputMessageVideoNote {
                video_note: InputVideoNote {
                    video_note: InputFile::Id { id: video_note.video },
                    thumbnail: None,
                    duration: video_note.duration,
                    length: video_note.length,
                },
                self_destruct_type: None,
            },
        ),
        MessageContent::MessageVoiceNote { voice_note, caption } => r == Some(
            InputMessageContent::<E, O>::InputMessageVoiceNote {
                voice_note: InputVoiceNote {
                    voice_note: InputFile::Id { id: voice_note.voice },
                    duration: voice_note.duration,
                    waveform: voice_note.waveform,
                },
                caption: Some(caption),
                self_destruct_type: None,
            },
        ),
        MessageContent::MessageLiveLocation { location } => r == Some(
            InputMessageContent::<E, O>::InputMessageLiveLocation { location },
        ),
        MessageContent::MessageLocation { location } => r == Some(
            InputMessageContent::<E, O>::InputMessageLocation { location },
        ),
        MessageContent::MessageVenue { venue } => r == Some(InputMessageContent::<E, O>::InputMessageVenue { venue }),
        MessageContent::MessageContact { contact } => r == Some(
            InputMessageContent::<E, O>::InputMessageContact { contact },
        ),
        MessageContent::MessageDice { emoji } => r == Some(
            InputMessageContent::<E, O>::InputMessageDice { emoji, clear_draft: false },
        ),
        MessageContent::MessageGame { short_name } => r == Some(
            InputMessageContent::<E, O>::InputMessageGame { bot_user_id: 0, game_short_name: short_name },
        ),
        MessageContent::MessageInvoice => r is None,
        MessageContent::MessagePoll { poll } => {
            &&& r matches Some(InputMessageContent::<E, O>::InputMessagePoll { question, options, description, media, is_anonymous, allows_multiple_answers, allows_revoting, members_only, country_codes, shuffle_options, hide_results_until_closes, poll_type, open_period, close_date, is_closed })
            &&& question == poll.question
            &&& options@ == input_options::<E, O>(poll.options@)
            &&& description.text@.len() == 0 && description.entities@.len() == 0
            &&& media is None
            &&& is_anonymous == poll.is_anonymous && allows_multiple_answers == poll.allows_multiple_answers
            &&& allows_revoting == poll.allows_revoting && members_only == poll.members_only
            &&& country_codes == poll.country_codes
            &&& !shuffle_options && !hide_results_until_closes
            &&& match poll.poll_type {
                PollType::Regular => poll_type == InputPollType::<E, O>::Regular { allow_adding_options: true },
                PollType::Quiz { correct_option_ids, explanation } => poll_type == InputPollType::<E, O>::Quiz {
                    correct_option_ids,
                    explanation,
                    explanation_media: None,
                },
            }
            &&& open_period == poll.open_period && close_date == poll.close_date && is_closed == poll.is_closed
        },
        MessageContent::MessageChecklist { list } => {
            &&& r matches Some(InputMessageContent::<E, O>::InputMessageChecklist { checklist })
            &&& checklist.title == list.title
            &&& checklist.tasks@ == input_tasks(list.tasks@)
            &&& checklist.others_can_add_tasks == list.others_can_add_tasks
            &&& checklist.others_can_mark_tasks_as_done == list.others_can_mark_tasks_as_done
        },
        MessageContent::MessageStory { story_poster_chat_id, story_id } => r == Some(
            InputMessageContent::<E, O>::InputMessageStory { story_poster_chat_id, story_id },
        ),
        MessageContent::Other => r is None,
    }
}

/// Reposting keeps what the received content is: the same file, the same
/// caption and the same metadata. An audio keeps its title as the title and
/// its performer as the performer; a text keeps its text; a document, video,
/// voice note, video note or sticker keeps its file and its measures; a
/// photo is sent again in its largest size, the last one listed, and a
/// photo without sizes, an invoice or an unknown content cannot be sent
/// again.
pub proof fn lemma_repost_keeps_content<E, O>(c: MessageContent<E, O>, r: Option<InputMessageContent<E, O>>)
    requires
        resends_as(c, r),
    ensures
        c matches MessageContent::MessageText { text, .. } ==> (r matches Some(
            InputMessageContent::InputMessageText { text: t, .. },
        ) && t == text),
        c matches MessageContent::MessageAudio { audio, caption } ==> (r matches Some(
            InputMessageContent::InputMessageAudio { audio: a, caption: cap },
        ) && a.audio == (InputFile::Id { id: audio.audio }) && a.title == audio.title
            && a.performer == audio.performer && a.duration == audio.duration && cap == Some(
            caption,
        )),
        c matches MessageContent::MessageDocument { document, caption } ==> (r matches Some(
            InputMessageContent::InputMessageDocument { document: d, caption: cap },
        ) && d.document == (InputFile::Id { id: document.document }) && cap == Some(caption)),
        c matches MessageContent::MessageVideo { video, caption, .. } ==> (r matches Some(
            InputMessageContent::InputMessageVideo { video: v, caption: cap, .. },
        ) && v.video == (InputFile::Id { id: video.video }) && v.duration == video.duration
            && v.width == video.width && v.height == video.height && cap == Some(caption)),
        c matches MessageContent::MessageVoiceNote { voice_note, caption } ==> (r matches Some(
            InputMessageContent::InputMessageVoiceNote { voice_note: v, caption: cap, .. },
        ) && v.voice_note == (InputFile::Id { id: voice_note.voice }) && v.duration
            == voice_note.duration && v.waveform == voice_note.waveform && cap == Some(caption)),
        c matches MessageContent::MessageVideoNote { video_note } ==> (r matches Some(
            InputMessageContent::InputMessageVideoNote { video_note: v, .. },
        ) && v.video_note == (InputFile::Id { id: video_note.video }) && v.duration
            == video_note.duration && v.length == video_note.length),
        c matches MessageContent::MessageSticker { sticker } ==> (r matches Some(
            InputMessageContent::InputMessageSticker { sticker: s, emoji },
        ) && s.sticker == (InputFile::Id { id: sticker.sticker }) && s.width == sticker.width
            && s.height == sticker.height && emoji == sticker.emoji),
        c matches MessageContent::MessageAnimation { animation, caption, .. } ==> (r matches Some(
            InputMessageContent::InputMessageAnimation { animation: a, caption: cap, .. },
        ) && a.animation == (InputFile::Id { id: animation.animation }) && a.duration
            == animation.duration && a.width == animation.width && a.height == animation.height
            && cap == Some(caption)),
        c matches MessageContent::MessagePhoto { sizes, caption, .. } ==> if sizes@.len() == 0 {
            r is None
        } else {
            r matches Some(InputMessageContent::InputMessagePhoto { photo: p, caption: cap, .. })
                && p.photo == (InputFile::Id { id: sizes@.last().photo }) && p.width
                == sizes@.last().width && p.height == sizes@.last().height && cap == Some(caption)
        },
        c is MessageInvoice || c is Other ==> r is None,
{
}

fn convert_options<E, O>(options: Vec<PollOption<E>>) -> (res: Vec<InputPollOption<E, O>>)
    ensures
        res@ == input_options::<E, O>(options@),
{
    let mut rest = options;
    let ghost all = rest@;
    let mut res: Vec<InputPollOption<E, O>> = Vec::new();
    while rest.len() > 0
        invariant
            res@.len() + rest@.len() == all.len(),
            rest@ == all.skip(res@.len() as int),
            res@ == input_options::<E, O>(all.take(res@.len() as int)),
        decreases rest.len(),
    {
        let o = rest.remove(0);
        let ghost k = res@.len();
        res.push(InputPollOption { text: o.text, media: None });
        assert(rest@ =~= all.skip(res@.len() as int));
        assert(res@ =~= input_options::<E, O>(all.take(res@.len() as int)));
    }
    assert(all.take(all.len() as int) =~= all);
    res
}

fn convert_tasks<E>(tasks: Vec<ChecklistTask<E>>) -> (res: Vec<InputChecklistTask<E>>)
    ensures
        res@ == input_tasks(tasks@),
{
    let mut rest = tasks;
    let ghost all = rest@;
    let mut res: Vec<InputChecklistTask<E>> = Vec::new();
    while rest.len() > 0
        invariant
            res@.len() + rest@.len() == all.len(),
            rest@ == all.skip(res@.len() as int),
            res@ == input_tasks(all.take(res@.len() as int)),
        decreases rest.len(),
    {
        let t = rest.remove(0);
        res.push(InputChecklistTask { id: t.id, text: t.text });
        assert(rest@ =~= all.skip(res@.len() as int));
        assert(res@ =~= input_tasks(all.take(res@.len() as int)));
    }
    assert(all.take(all.len() as int) =~= all);
    res
}

/// The content to send to repost a received message's content; `None`
/// where it cannot be sent again.
pub fn message_content_to_input_message_content<E, O>(content: MessageContent<E, O>) -> (res: Option<
    InputMessageContent<E, O>,
>)
    ensures
        resends_as(content, res),
{
    match content {
        MessageContent::MessageText { text, link_preview_options } => Some(
            InputMessageContent::InputMessageText { text, link_preview_options, clear_draft: false },
        ),
        MessageContent::MessageAnimation { animation, caption, show_caption_above_media, has_spoiler } => Some(
            InputMessageContent::InputMessageAnimation {
                animation: InputAnimation {
                    animation: InputFile::Id { id: animation.animation },
                    thumbnail: None,
                    added_sticker_file_ids: Vec::new(),
                    duration: animation.duration,
                    width: animation.width,
                    height: animation.height,
                },
                caption: Some(caption),
                show_caption_above_media,
                has_spoiler,
            },
        ),
        MessageContent::MessageAudio { audio, caption } => Some(
            InputMessageContent::InputMessageAudio {
                audio: InputAudio {
                    audio: InputFile::Id { id: audio.audio },
                    album_cover_thumbnail: None,
                    duration: audio.duration,
                    title: audio.title,
                    performer: audio.performer,
                },
                caption: Some(caption),
            },
        ),
        MessageContent::MessageDocument { document, caption } => Some(
            InputMessageContent::InputMessageDocument {
                document: InputDocument {
                    document: InputFile::Id { id: document.document },
                    thumbnail: None,
                    disable_content_type_detection: false,
                },
                caption: Some(caption),
            },
        ),
        MessageContent::MessagePaidMedia { star_count, caption, show_caption_above_media } => Some(
            InputMessageContent::InputMessagePaidMedia {
                star_count,
                paid_media: Vec::new(),
                caption: Some(caption),
                show_caption_above_media,
                payload: String::new(),
            },
        ),
        MessageContent::MessagePhoto { sizes, caption, show_caption_above_media, has_spoiler } => {
            if sizes.len() == 0 {
                return None;
            }
            let last = &sizes[sizes.len() - 1];
            Some(
                InputMessageContent::InputMessagePhoto {
                    photo: InputPhoto {
                        photo: InputFile::Id { id: last.photo },
                        thumbnail: None,
                        video: None,
                        added_sticker_file_ids: Vec::new(),
                        width: last.width,
                        height: last.height,
                    },
                    caption: Some(caption),
                    show_caption_above_media,
                    self_destruct_type: None,
                    has_spoiler,
                },
            )
        },
        MessageContent::MessageSticker { sticker } => Some(
            InputMessageContent::InputMessageSticker {
                sticker: InputSticker {
                    sticker: InputFile::Id { id: sticker.sticker },
                    thumbnail: None,
                    width: sticker.width,
                    height: sticker.height,
                },
                emoji: sticker.emoji,
            },
        ),
        MessageContent::MessageVideo { video, caption, show_caption_above_media, has_spoiler } => Some(
            InputMessageContent::InputMessageVideo {
                video: InputVideo {
                    video: InputFile::Id { id: video.video },
                    thumbnail: None,
                    cover: None,
                    start_timestamp: 0,
                    added_sticker_file_ids: Vec::new(),
                    duration: video.duration,
                    width: video.width,
                    height: video.height,
                    supports_streaming: video.supports_streaming,
                },
                caption: Some(caption),
                show_caption_above_media,
                self_destruct_type: None,
                has_spoiler,
            },
        ),
        MessageContent::MessageVideoNote { video_note } => Some(
            InputMessageContent::InputMessageVideoNote {
                video_note: InputVideoNote {
                    video_note: InputFile::Id { id: video_note.video },
                    thumbnail: None,
                    duration: video_note.duration,
                    length: video_note.length,
                },
                self_destruct_type: None,
            },
        ),
        MessageContent::MessageVoiceNote { voice_note, caption } => Some(
            InputMessageContent::InputMessageVoiceNote {
                voice_note: InputVoiceNote {
                    voice_note: InputFile::Id { id: voice_note.voice },
                    duration: voice_note.duration,
                    waveform: voice_note.waveform,
                },
                caption: Some(caption),
                self_destruct_type: None,
            },
        ),
        MessageContent::MessageLiveLocation { location } => Some(
            InputMessageContent::InputMessageLiveLocation { location },
        ),
        MessageContent::MessageLocation { location } => Some(
            InputMessageContent::InputMessageLocation { location },
        ),
        MessageContent::MessageVenue { venue } => Some(InputMessageContent::InputMessageVenue { venue }),
        MessageContent::MessageContact { contact } => Some(
            InputMessageContent::InputMessageContact { contact },
        ),
        MessageContent::MessageDice { emoji } => Some(
            InputMessageContent::InputMessageDice { emoji, clear_draft: false },
        ),
        MessageContent::MessageGame { short_name } => Some(
            InputMessageContent::InputMessageGame { bot_user_id: 0, game_short_name: short_name },
        ),
        MessageContent::MessageInvoice => None,
        MessageContent::MessagePoll { poll } => {
            let poll_type = match poll.poll_type {
                PollType::Regular => InputPollType::Regular { allow_adding_options: true },
                PollType::Quiz { correct_option_ids, explanation } => InputPollType::Quiz {
                    correct_option_ids,
                    explanation,
                    explanation_media: None,
                },
            };
            Some(
                InputMessageContent::InputMessagePoll {
                    question: poll.question,
                    options: convert_options(poll.options),
                    description: FormattedText { text: String::new(), entities: Vec::new() },
                    media: None,
                    is_anonymous: poll.is_anonymous,
                    allows_multiple_answers: poll.allows_multiple_answers,
                    allows_revoting: poll.allows_revoting,
                    members_only: poll.members_only,
                    country_codes: poll.country_codes,
                    shuffle_options: false,
                    hide_results_until_closes: false,
                    poll_type,
                    open_period: poll.open_period,
                    close_date: poll.close_date,
                    is_closed: poll.is_closed,
                },
            )
        },
        MessageContent::MessageChecklist { list } => Some(
            InputMessageContent::InputMessageChecklist {
                checklist: InputChecklist {
                    title: list.title,
                    tasks: convert_tasks(list.tasks),
                    others_can_add_tasks: list.others_can_add_tasks,
                    others_can_mark_tasks_as_done: list.others_can_mark_tasks_as_done,
                },
            },
        ),
        MessageContent::MessageStory { story_poster_chat_id, story_id } => Some(
            InputMessageContent::InputMessageStory { story_poster_chat_id, story_id },
        ),
        MessageContent::Other => None,
    }
}

} // verus!

//! Destination profiles as the publication collaborator needs them: profile
//! checks, the rendered title and the tag line.

use vstd::prelude::*;
use vstd::string::*;
use crate::clock::{format_at, local_now, strftime_of};
use crate::model::UploadConfig;
use crate::text::{
    chars_of, is_white_space, lemma_replaced_absent, lemma_trim_blank, lemma_replaced_lacks, owned, replace_all, replaced,
    string_from_chars, trim_of, trimmed,
};

verus! {

/// The publication collaborator: submits a batch of files under one profile.
/// A run hands it the whole batch under each profile in the order that
/// `next_profile` gives.
pub trait Uploader {
    /// Publishes `filenames` with the settings of `config`; `live_title` and
    /// `task_name` fill the title template.
    fn upload(
        &mut self,
        filenames: &Vec<String>,
        config: &UploadConfig,
        live_title: Option<&str>,
        task_name: &str,
    ) -> Result<(), String>;
}

/// The remote platforms a batch can be published to.
#[derive(Debug, Clone, Copy, PartialEq, Eq)]
pub enum UploadTarget {
    Bilibili,
}

impl UploadTarget {
    /// The profile logic for this platform.
    pub fn create_uploader(&self) -> (r: BilibiliUploader)
        ensures
            r == BilibiliUploader,
    {
        match self {
            UploadTarget::Bilibili => BilibiliUploader::new(),
        }
    }
}

/// Why a destination profile cannot be published with.
#[derive(Debug, Clone, Copy, PartialEq, Eq)]
pub enum ConfigError {
    MissingAccountFile,
    MissingTid,
    InvalidCopyright,
}

impl ConfigError {
    /// The message shown for this error.
    pub fn message(&self) -> (r: String)
        ensures
            r@ == config_error_text(*self),
    {
        match self {
            ConfigError::MissingAccountFile => owned("account_file is required"),
            ConfigError::MissingTid => owned("tid is required"),
            ConfigError::InvalidCopyright => owned("copyright must be 1 (Original) or 2 (Reprint)"),
        }
    }
}

/// The message of each profile error.
pub open spec fn config_error_text(e: ConfigError) -> Seq<char> {
    match e {
        ConfigError::MissingAccountFile => "account_file is required"@,
        ConfigError::MissingTid => "tid is required"@,
        ConfigError::InvalidCopyright => "copyright must be 1 (Original) or 2 (Reprint)"@,
    }
}

/// The first check a profile fails, if any: an account file, a category, and
/// a copyright flag of 1 (self-made) or 2 (reprint) are required.
pub open spec fn config_problem(c: UploadConfig) -> Option<ConfigError> {
    if trim_of(c.account_file@).len() == 0 {
        Some(ConfigError::MissingAccountFile)
    } else if c.tid == 0 {
        Some(ConfigError::MissingTid)
    } else if c.copyright != 1 && c.copyright != 2 {
        Some(ConfigError::InvalidCopyright)
    } else {
        None
    }
}

/// The text that stands for `{title}`: the live title trimmed, or the task
/// name where there is no live title or it is blank.
pub open spec fn title_fill(live_title: Option<Seq<char>>, task_name: Seq<char>) -> Seq<char> {
    match live_title {
        Some(l) => if trim_of(l).len() > 0 {
            trim_of(l)
        } else {
            task_name
        },
        None => task_name,
    }
}

/// The template with every `{title}` filled in.
pub open spec fn merged_title(
    template: Seq<char>,
    live_title: Option<Seq<char>>,
    task_name: Seq<char>,
) -> Seq<char> {
    replaced(template, "{title}"@, title_fill(live_title, task_name))
}

/// The fill with every `%` doubled, so that chrono prints it as it stands.
pub open spec fn escaped_fill(fill: Seq<char>) -> Seq<char> {
    replaced(fill, "%"@, "%%"@)
}

/// The strftime pattern of a title: the template's own tokens, with every
/// `{title}` replaced by the escaped fill.
pub open spec fn title_pattern(
    template: Seq<char>,
    live_title: Option<Seq<char>>,
    task_name: Seq<char>,
) -> Seq<char> {
    replaced(template, "{title}"@, escaped_fill(title_fill(live_title, task_name)))
}

/// The title rendered at `secs` seconds after the epoch in the zone `offset`
/// seconds east of UTC: the pattern formatted by chrono, or the filled-in
/// template as it stands where chrono rejects a token.
pub open spec fn rendered_title(
    template: Seq<char>,
    live_title: Option<Seq<char>>,
    task_name: Seq<char>,
    secs: i64,
    offset: i32,
) -> Seq<char> {
    match strftime_of(title_pattern(template, live_title, task_name), secs, offset) {
        Some(t) => t,
        None => merged_title(template, live_title, task_name),
    }
}

/// A live title made of white space only.
pub open spec fn blank(l: Option<Seq<char>>) -> bool {
    l matches Some(x) && forall|i: int| 0 <= i < x.len() ==> is_white_space(x[i])
}

/// The view of an optional string slice.
pub open spec fn opt_view(s: Option<&str>) -> Option<Seq<char>> {
    match s {
        Some(x) => Some(x@),
        None => None,
    }
}

/// The view of an optional string.
pub open spec fn opt_text(s: Option<String>) -> Option<Seq<char>> {
    match s {
        Some(x) => Some(x@),
        None => None,
    }
}

/// `s`, or `None` where it is empty.
pub open spec fn unless_blank(s: Seq<char>) -> Option<Seq<char>> {
    if s.len() > 0 {
        Some(s)
    } else {
        None
    }
}

/// The tag line: the tags joined by `,`.
pub open spec fn comma_joined(tags: Seq<String>) -> Seq<char>
    decreases tags.len(),
{
    if tags.len() == 0 {
        Seq::empty()
    } else if tags.len() == 1 {
        tags[0]@
    } else {
        comma_joined(tags.drop_last()) + ","@ + tags.last()@
    }
}

/// The tag line a profile submits: its tags joined by `,`, or `omnistream`
/// where it has none.
pub open spec fn tag_line(tags: Seq<String>) -> Seq<char> {
    if tags.len() == 0 {
        "omnistream"@
    } else {
        comma_joined(tags)
    }
}

/// Profile logic for the bilibili platform.
#[derive(Debug, Clone, Copy, PartialEq, Eq)]
pub struct BilibiliUploader;

impl BilibiliUploader {
    pub fn new() -> (r: BilibiliUploader)
        ensures
            r == BilibiliUploader,
    {
        BilibiliUploader
    }

    /// Checks that a profile can be published with.
    pub fn validate_config(config: &UploadConfig) -> (r: Result<(), ConfigError>)
        ensures
            r matches Err(e) ==> config_problem(*config) == Some(e),
            r is Ok ==> config_problem(*config) is None,
    {
        let account = trimmed(config.account_file.as_str());
        if account.unicode_len() == 0 {
            Err(ConfigError::MissingAccountFile)
        } else if config.tid == 0 {
            Err(ConfigError::MissingTid)
        } else if config.copyright != 1 && config.copyright != 2 {
            Err(ConfigError::InvalidCopyright)
        } else {
            Ok(())
        }
    }

    fn title_fill_text(live_title: Option<&str>, task_name: &str) -> (r: String)
        ensures
            r@ == title_fill(opt_view(live_title), task_name@),
            blank(opt_view(live_title)) ==> r@ == task_name@,
    {
        proof {
            if let Some(l) = live_title {
                if blank(opt_view(live_title)) {
                    let x = opt_view(live_title)->0;
                    assert(x == l@);
                    assert forall|i: int| 0 <= i < l@.len() implies is_white_space(l@[i]) by {
                        assert(is_white_space(x[i]));
                    }
                    lemma_trim_blank(l@);
                }
            }
        }
        match live_title {
            Some(l) => {
                let t = trimmed(l);
                if t.unicode_len() > 0 {
                    t
                } else {
                    owned(task_name)
                }
            },
            None => owned(task_name),
        }
    }

    /// The template with `{title}` filled in, before date tokens are formatted.
    /// A blank live title leaves the task name as the fill.
    pub fn merge_title(template: &str, live_title: Option<&str>, task_name: &str) -> (r: String)
        ensures
            r@ == merged_title(template@, opt_view(live_title), task_name@),
            blank(opt_view(live_title)) ==> r@ == replaced(template@, "{title}"@, task_name@),
    {
        let fill = Self::title_fill_text(live_title, task_name);
        let pattern = chars_of("{title}");
        proof {
            reveal_strlit("{title}");
        }
        let out = replace_all(&chars_of(template), &pattern, &chars_of(fill.as_str()));
        string_from_chars(&out)
    }

    /// The title at the given instant: the filled-in template with its date
    /// and time tokens formatted, `%` in the fill printed as it stands. Where
    /// chrono rejects a token the filled-in template is kept.
    pub fn render_title_at(
        template: &str,
        live_title: Option<&str>,
        task_name: &str,
        secs: i64,
        offset: i32,
    ) -> (r: String)
        ensures
            r@ == rendered_title(template@, opt_view(live_title), task_name@, secs, offset),
            blank(opt_view(live_title)) ==> title_fill(opt_view(live_title), task_name@)
                == task_name@,
            !template@.contains('%') && !title_fill(opt_view(live_title), task_name@).contains('%')
                ==> r@ == merged_title(template@, opt_view(live_title), task_name@),
    {
        let fill = Self::title_fill_text(live_title, task_name);
        let title_key = chars_of("{title}");
        let percent = chars_of("%");
        proof {
            reveal_strlit("{title}");
            reveal_strlit("%");
            reveal_strlit("%%");
        }
        let fill_chars = chars_of(fill.as_str());
        let escaped = replace_all(&fill_chars, &percent, &chars_of("%%"));
        let tpl = chars_of(template);
        let merged = string_from_chars(&replace_all(&tpl, &title_key, &fill_chars));
        let pattern = string_from_chars(&replace_all(&tpl, &title_key, &escaped));
        proof {
            let f = title_fill(opt_view(live_title), task_name@);
            if !template@.contains('%') && !f.contains('%') {
                assert("%"@ =~= seq!['%']);
                lemma_replaced_absent(f, '%', "%%"@);
                assert(!"{title}"@.contains('%')) by {
                    if "{title}"@.contains('%') {
                        let j = choose|j: int| 0 <= j < "{title}"@.len() && "{title}"@[j] == '%';
                    }
                }
                lemma_replaced_lacks(template@, "{title}"@, f, '%');
            }
        }
        match format_at(pattern.as_str(), secs, offset) {
            Some(t) => t,
            None => merged,
        }
    }

    /// The title for a submission, rendered with the current local time.
    pub fn render_title(template: &str, live_title: Option<&str>, task_name: &str) -> (r: String)
        ensures
            exists|secs: i64, offset: i32|
                r@ == rendered_title(template@, opt_view(live_title), task_name@, secs, offset),
            !template@.contains('%') && !title_fill(opt_view(live_title), task_name@).contains('%')
                ==> r@ == merged_title(template@, opt_view(live_title), task_name@),
    {
        let (secs, offset) = local_now();
        Self::render_title_at(template, live_title, task_name, secs, offset)
    }

    /// The title a profile submits with: its template rendered at the current
    /// local time and trimmed, or `None` where it has no template or the
    /// result is blank.
    pub fn submission_title(config: &UploadConfig, live_title: Option<&str>, task_name: &str) -> (r:
        Option<String>)
        ensures
            config.title is None ==> r is None,
            config.title is Some ==> exists|secs: i64, offset: i32|
                opt_text(r) == unless_blank(
                    trim_of(
                        rendered_title(
                            config.title->0@,
                            opt_view(live_title),
                            task_name@,
                            secs,
                            offset,
                        ),
                    ),
                ),
    {
        match &config.title {
            Some(tp) => {
                let (secs, offset) = local_now();
                let rendered = Self::render_title_at(tp.as_str(), live_title, task_name, secs, offset);
                let t = trimmed(rendered.as_str());
                if t.unicode_len() > 0 {
                    Some(t)
                } else {
                    None
                }
            },
            None => None,
        }
    }

    /// The tag line a profile submits.
    pub fn submission_tag(tags: &Vec<String>) -> (r: String)
        ensures
            r@ == tag_line(tags@),
    {
        if tags.len() == 0 {
            return owned("omnistream");
        }
        let mut out: Vec<char> = chars_of(tags[0].as_str());
        let mut i: usize = 1;
        assert(tags@.subrange(0, 1).drop_last() =~= Seq::<String>::empty());
        while i < tags.len()
            invariant
                1 <= i <= tags@.len(),
                out@ == comma_joined(tags@.subrange(0, i as int)),
            decreases tags@.len() - i,
        {
            out.push(',');
            let next = chars_of(tags[i].as_str());
            let mut k: usize = 0;
            let ghost before = out@;
            while k < next.len()
                invariant
                    k <= next@.len(),
                    out@ == before + next@.subrange(0, k as int),
                decreases next@.len() - k,
            {
                out.push(next[k]);
                k += 1;
                assert(out@ =~= before + next@.subrange(0, k as int));
            }
            proof {
                reveal_strlit(",");
                let s = tags@.subrange(0, i + 1);
                assert(s.drop_last() =~= tags@.subrange(0, i as int));
                assert(out@ =~= comma_joined(s.drop_last()) + ","@ + s.last()@);
            }
            i += 1;
        }
        assert(tags@.subrange(0, tags@.len() as int) =~= tags@);
        string_from_chars(&out)
    }
}

/// A live title of white space only leaves the task name as the fill: the
/// title is the template with `{title}` replaced by the task name, and its
/// date tokens formatted at the instant of rendering.
pub proof fn lemma_blank_title_uses_task_name(
    template: Seq<char>,
    live_title: Seq<char>,
    task_name: Seq<char>,
    secs: i64,
    offset: i32,
)
    requires
        forall|i: int| 0 <= i < live_title.len() ==> is_white_space(live_title[i]),
    ensures
        title_fill(Some(live_title), task_name) == task_name,
        rendered_title(template, Some(live_title), task_name, secs, offset) == (match strftime_of(
            replaced(template, "{title}"@, escaped_fill(task_name)),
            secs,
            offset,
        ) {
            Some(t) => t,
            None => replaced(template, "{title}"@, task_name),
        }),
{
    lemma_trim_blank(live_title);
}

} // verus!

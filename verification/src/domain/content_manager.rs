//! The renderer: from the statistics of a period to the text of a report.
//!
//! A report is a fenced block of text. It holds an optional title with the
//! reported period, one row for each language that is shown, and an optional
//! footer with the total time.

use crate::application::config::{ContentConfig, TimeRange};
use crate::domain::calendar::{
    format_date, formatted_date, iso_week, iso_week_of, now, on_calendar, Timestamp,
    NANOS_PER_SECOND, SECONDS_PER_DAY,
};
use crate::domain::entity::waka_time_metrics_entity::FULL_SHARE;
use crate::domain::entity::{Language, Metrics};
use crate::domain::progress_bar::{draw_progress_bar, progress_bar};
use crate::error::{is_outcome, Error, RenderFault};
use crate::text::{
    decimal, digit_char, digit_str, left_justified, lemma_decimal_len, push_decimal,
    push_left_justified, push_right_justified, right_justified,
};
use vstd::prelude::*;

verus! {

/// The width of the column that holds the name of a language.
pub const NAME_WIDTH: usize = 10;

/// The width of the column that holds the time spent, in words.
pub const TIME_WIDTH: usize = 16;

/// The width of the column that holds the share.
pub const PERCENT_WIDTH: usize = 6;

/// A share in hundredths of a percent, written in percent with two decimals.
pub open spec fn percent_text(percent: nat) -> Seq<char> {
    decimal(percent / 100) + seq!['.', digit_char(percent % 100 / 10), digit_char(percent % 10)]
}

/// The row of one language: its name, the time in words, the progress bar
/// and the share, in columns of fixed width.
pub open spec fn row_text(cfg: ContentConfig, language: Language) -> Seq<char> {
    left_justified(language.name@, NAME_WIDTH as nat) + seq![' '] + right_justified(
        language.text@,
        TIME_WIDTH as nat,
    ) + seq![' '] + progress_bar(
        cfg.block_style@,
        cfg.progress_bar_len as nat,
        language.percent_hundredths as nat,
    ) + seq![' '] + right_justified(
        percent_text(language.percent_hundredths as nat),
        PERCENT_WIDTH as nat,
    ) + seq![' ', '%', '\n']
}

/// The rows of the given languages, one after another.
pub open spec fn rows_text(cfg: ContentConfig, languages: Seq<Language>) -> Seq<char>
    decreases languages.len(),
{
    if languages.len() == 0 {
        Seq::empty()
    } else {
        rows_text(cfg, languages.drop_last()) + row_text(cfg, languages.last())
    }
}

/// A language is shown when its time reaches the threshold.
pub open spec fn is_shown(cfg: ContentConfig, language: Language) -> bool {
    language.total_seconds >= cfg.threshold
}

/// The test of [`is_shown`], as a predicate on languages.
pub open spec fn shown_filter(cfg: ContentConfig) -> spec_fn(Language) -> bool {
    |language: Language| is_shown(cfg, language)
}

/// The number of languages, from the top of the list, that are considered.
pub open spec fn considered(cfg: ContentConfig, languages: Seq<Language>) -> int {
    if cfg.language_count < languages.len() {
        cfg.language_count as int
    } else {
        languages.len() as int
    }
}

/// The languages that get a row: those among the considered ones whose time
/// reaches the threshold, in the order of the list.
pub open spec fn shown_languages(cfg: ContentConfig, languages: Seq<Language>) -> Seq<Language> {
    languages.take(considered(cfg, languages)).filter(shown_filter(cfg))
}

/// The table: the rows of the shown languages, closed by an empty line.
pub open spec fn table_text(cfg: ContentConfig, languages: Seq<Language>) -> Seq<char> {
    rows_text(cfg, shown_languages(cfg, languages)) + seq!['\n']
}

/// The footer with the total time.
pub open spec fn footer_text(total_time: Seq<char>) -> Seq<char> {
    "Total Time: "@ + total_time
}

/// The second at which a period of `range` that ends at `end` starts: exactly
/// the days of the period earlier.
pub open spec fn window_start(range: TimeRange, end: Timestamp) -> int {
    end.secs - range.days() * SECONDS_PER_DAY
}

/// The title of a report on the period `range` that ends at `end`: the ISO
/// week of the start of the period and its two ends in the date style.
pub open spec fn title_text(style: Seq<char>, range: TimeRange, end: Timestamp) -> Result<
    Seq<char>,
    Error,
> {
    let start = window_start(range, end);
    if !on_calendar(start, end.nanos) || !on_calendar(end.secs as int, end.nanos) {
        Err(Error::RenderFailed(RenderFault::DateOutOfRange))
    } else {
        match (
            formatted_date(start as i64, end.nanos, style),
            formatted_date(end.secs, end.nanos, style),
        ) {
            (Some(from), Some(to)) => Ok(
                "Week #"@ + decimal(iso_week_of(start as i64, end.nanos)->0 as nat) + ": "@ + from
                    + " - "@ + to + "\n\n"@,
            ),
            _ => Err(Error::RenderFailed(RenderFault::InvalidDateStyle)),
        }
    }
}

/// The title of a report on the period that the label `range` names.
pub open spec fn title_for(style: Seq<char>, range: Seq<char>, end: Timestamp) -> Result<
    Seq<char>,
    Error,
> {
    match TimeRange::from_label(range) {
        Some(known) => title_text(style, known, end),
        None => Err(Error::RenderFailed(RenderFault::InvalidTimeRange)),
    }
}

/// The report with the given title: the opening fence, the title, the table,
/// the footer if it is asked for, and the closing fence.
pub open spec fn report_text(cfg: ContentConfig, metrics: Metrics, title: Seq<char>) -> Seq<char> {
    "\n```text\n"@ + title + table_text(cfg, metrics.data.languages@) + (if cfg.show_total_time {
        footer_text(metrics.data.human_readable_total_including_other_language@)
    } else {
        Seq::empty()
    }) + "\n```\n"@
}

/// The report on `metrics` for a period that ends at `end`, or the reason
/// why there is none.
pub open spec fn rendered(cfg: ContentConfig, metrics: Metrics, end: Timestamp) -> Result<
    Seq<char>,
    Error,
> {
    if cfg.show_title {
        match title_for(cfg.date_style@, metrics.data.range@, end) {
            Ok(title) => Ok(report_text(cfg, metrics, title)),
            Err(error) => Err(error),
        }
    } else {
        Ok(report_text(cfg, metrics, Seq::empty()))
    }
}

/// The rows of a list that grew by one language are the rows of the list,
/// followed by the row of that language.
pub proof fn lemma_rows_text_push(cfg: ContentConfig, languages: Seq<Language>, last: Language)
    ensures
        rows_text(cfg, languages.push(last)) == rows_text(cfg, languages) + row_text(cfg, last),
{
    assert(languages.push(last).drop_last() =~= languages);
}

/// Rows line up: every row whose name and time fit their columns has the
/// same width, which is that of the four columns and of what stands between
/// them.
pub proof fn lemma_row_width(cfg: ContentConfig, language: Language)
    requires
        language.wf(),
        language.name@.len() <= NAME_WIDTH,
        language.text@.len() <= TIME_WIDTH,
    ensures
        row_text(cfg, language).len() == NAME_WIDTH + TIME_WIDTH + cfg.progress_bar_len
            + PERCENT_WIDTH + 6,
{
    let percent = language.percent_hundredths as nat;
    lemma_decimal_len(percent / 100);
    assert(4 <= percent_text(percent).len() <= PERCENT_WIDTH);
}

/// The period of a title starts exactly seven or thirty days before its end,
/// as its label says, and any other label gives no title.
pub proof fn lemma_title_window(style: Seq<char>, range: Seq<char>, end: Timestamp)
    ensures
        window_start(TimeRange::Last7Days, end) == end.secs - 7 * 86_400,
        window_start(TimeRange::Last30Days, end) == end.secs - 30 * 86_400,
        range == "last_7_days"@ ==> title_for(style, range, end) == title_text(
            style,
            TimeRange::Last7Days,
            end,
        ),
        range == "last_30_days"@ ==> title_for(style, range, end) == title_text(
            style,
            TimeRange::Last30Days,
            end,
        ),
        range != "last_7_days"@ && range != "last_30_days"@ ==> title_for(style, range, end) == Err::<
            Seq<char>,
            Error,
        >(Error::RenderFailed(RenderFault::InvalidTimeRange)),
{
    TimeRange::Last7Days.lemma_label_round_trip();
    TimeRange::Last30Days.lemma_label_round_trip();
}

/// What a table shows: no more languages than are considered, each of them
/// with a time that reaches the threshold, and every considered language with
/// such a time.
pub proof fn lemma_shown_languages(cfg: ContentConfig, languages: Seq<Language>)
    ensures
        shown_languages(cfg, languages).len() <= cfg.language_count,
        shown_languages(cfg, languages).len() <= languages.len(),
        forall|i: int|
            0 <= i < shown_languages(cfg, languages).len() ==> {
                &&& is_shown(cfg, #[trigger] shown_languages(cfg, languages)[i])
                &&& languages.take(considered(cfg, languages)).contains(
                    shown_languages(cfg, languages)[i],
                )
            },
        forall|i: int|
            0 <= i < considered(cfg, languages) && is_shown(cfg, languages[i]) ==> shown_languages(
                cfg,
                languages,
            ).contains(#[trigger] languages[i]),
{
    let top = languages.take(considered(cfg, languages));
    let shown = shown_languages(cfg, languages);
    top.lemma_filter_len(shown_filter(cfg));
    assert forall|i: int| 0 <= i < shown.len() implies is_shown(cfg, #[trigger] shown[i])
        && top.contains(shown[i]) by {
        top.lemma_filter_pred(shown_filter(cfg), i);
        assert(shown.contains(shown[i]));
        top.lemma_filter_contains_rev(shown_filter(cfg), shown[i]);
    }
    assert forall|i: int|
        0 <= i < considered(cfg, languages) && is_shown(cfg, languages[i]) implies shown.contains(
        #[trigger] languages[i],
    ) by {
        assert(top[i] == languages[i]);
        top.lemma_filter_contains(shown_filter(cfg), i);
    }
}

/// Where no considered language reaches the threshold, the table has no row:
/// it is the empty line alone.
pub proof fn lemma_table_without_rows(cfg: ContentConfig, languages: Seq<Language>)
    requires
        forall|i: int|
            0 <= i < considered(cfg, languages) ==> !is_shown(cfg, #[trigger] languages[i]),
    ensures
        shown_languages(cfg, languages).len() == 0,
        table_text(cfg, languages) == seq!['\n'],
{
    let top = languages.take(considered(cfg, languages));
    let shown = shown_languages(cfg, languages);
    if shown.len() > 0 {
        top.lemma_filter_pred(shown_filter(cfg), 0);
        assert(shown.contains(shown[0]));
        top.lemma_filter_contains_rev(shown_filter(cfg), shown[0]);
        let i = choose|i: int| 0 <= i < top.len() && top[i] == shown[0];
        assert(top[i] == languages[i]);
    }
    assert(table_text(cfg, languages) =~= seq!['\n']);
}

/// Renders the statistics that a data source delivered, for the content
/// uploader to publish.
pub struct ContentManager<TDataPort, TContentUploader> {
    cfg: ContentConfig,
    data_port: TDataPort,
    content_uploader: TContentUploader,
}

impl<TDataPort, TContentUploader> ContentManager<TDataPort, TContentUploader> {
    #[verifier::type_invariant]
    spec fn has_glyphs(&self) -> bool {
        self.cfg.wf()
    }

    /// The layout that the manager renders with.
    pub closed spec fn config(&self) -> ContentConfig {
        self.cfg
    }

    /// The source of the statistics.
    pub closed spec fn source(&self) -> TDataPort {
        self.data_port
    }

    /// The publisher of the reports.
    pub closed spec fn uploader(&self) -> TContentUploader {
        self.content_uploader
    }

    /// Creates a manager that renders with the layout `cfg`.
    pub fn new(cfg: ContentConfig, data_port: TDataPort, content_uploader: TContentUploader) -> (manager:
        Self)
        requires
            cfg.wf(),
        ensures
            manager.config() == cfg,
            manager.source() == data_port,
            manager.uploader() == content_uploader,
    {
        ContentManager { cfg, data_port, content_uploader }
    }

    /// The layout that the manager renders with. It always holds a glyph to
    /// draw with.
    pub fn cfg(&self) -> (cfg: &ContentConfig)
        ensures
            *cfg == self.config(),
            cfg.wf(),
    {
        proof {
            use_type_invariant(self);
        }
        &self.cfg
    }

    /// The source of the statistics.
    pub fn data_port(&self) -> (port: &TDataPort)
        ensures
            *port == self.source(),
    {
        &self.data_port
    }

    /// The publisher of the reports.
    pub fn content_uploader(&self) -> (port: &TContentUploader)
        ensures
            *port == self.uploader(),
    {
        &self.content_uploader
    }

    /// The progress bar of a share, given in hundredths of a percent.
    pub fn make_progress_bar(&self, percent: u32) -> (bar: String)
        requires
            percent <= FULL_SHARE,
        ensures
            bar@ == progress_bar(
                self.config().block_style@,
                self.config().progress_bar_len as nat,
                percent as nat,
            ),
            bar@.len() == self.config().progress_bar_len,
    {
        proof {
            use_type_invariant(self);
        }
        draw_progress_bar(self.cfg.block_style.as_str(), self.cfg.progress_bar_len, percent)
    }

    /// Appends the row of one language to `buf`.
    fn make_row(&self, buf: &mut String, language: &Language)
        requires
            language.wf(),
        ensures
            final(buf)@ == old(buf)@ + row_text(self.config(), *language),
    {
        proof {
            reveal_strlit(" ");
            reveal_strlit(".");
            reveal_strlit(" %\n");
            reveal_strlit("");
        }
        let percent: u32 = language.percent_hundredths;
        let bar = self.make_progress_bar(percent);
        let mut share = String::from_str("");
        push_decimal(&mut share, (percent / 100) as u128);
        share.append(".");
        share.append(digit_str((percent % 100 / 10) as u8));
        share.append(digit_str((percent % 10) as u8));
        assert(share@ =~= percent_text(percent as nat));
        push_left_justified(buf, language.name.as_str(), NAME_WIDTH);
        buf.append(" ");
        push_right_justified(buf, language.text.as_str(), TIME_WIDTH);
        buf.append(" ");
        buf.append(bar.as_str());
        buf.append(" ");
        push_right_justified(buf, share.as_str(), PERCENT_WIDTH);
        buf.append(" %\n");
        assert(buf@ =~= old(buf)@ + row_text(self.config(), *language));
    }

    /// Appends the table to `buf`: a row for each language among the first
    /// `language_count` whose time reaches the threshold, then an empty line.
    pub fn make_table(&self, buf: &mut String, languages: &[Language])
        requires
            forall|i: int| 0 <= i < languages@.len() ==> (#[trigger] languages@[i]).wf(),
        ensures
            final(buf)@ == old(buf)@ + table_text(self.config(), languages@),
    {
        proof {
            reveal_strlit("\n");
        }
        let limit: usize = if self.cfg.language_count < languages.len() {
            self.cfg.language_count
        } else {
            languages.len()
        };
        let ghost start = buf@;
        let ghost shown = shown_filter(self.cfg);
        let mut i: usize = 0;
        assert(languages@.take(0).filter(shown) =~= Seq::<Language>::empty()) by {
            languages@.take(0).lemma_filter_len(shown);
        }
        while i < limit
            invariant
                i <= limit <= languages@.len(),
                limit == considered(self.cfg, languages@),
                shown == shown_filter(self.cfg),
                self.cfg == self.config(),
                forall|j: int| 0 <= j < languages@.len() ==> (#[trigger] languages@[j]).wf(),
                buf@ == start + rows_text(self.cfg, languages@.take(i as int).filter(shown)),
            decreases limit - i,
        {
            let language = &languages[i];
            proof {
                let seen = languages@.take(i as int);
                languages@.lemma_take_succ_push(i as int);
                seen.lemma_filter_push(*language, shown);
                lemma_rows_text_push(self.cfg, seen.filter(shown), *language);
            }
            if language.total_seconds >= self.cfg.threshold {
                self.make_row(buf, language);
                assert(buf@ =~= start + rows_text(
                    self.cfg,
                    languages@.take(i + 1).filter(shown),
                ));
            }
            i = i + 1;
        }
        buf.append("\n");
        assert(buf@ =~= start + table_text(self.cfg, languages@));
    }

    /// Appends the title of a report on the period `range` that ends at
    /// `end`. Where there is no title, `buf` is left as it was.
    pub fn make_title(&self, buf: &mut String, range: &str, end: Timestamp) -> (r: Result<
        (),
        Error,
    >)
        ensures
            match title_for(self.config().date_style@, range@, end) {
                Ok(title) => r is Ok && final(buf)@ == old(buf)@ + title,
                Err(error) => r == Err::<(), Error>(error) && final(buf)@ == old(buf)@,
            },
    {
        let time_range = match TimeRange::try_from(range) {
            Ok(known) => known,
            Err(error) => return Err(error),
        };
        let span: i64 = time_range.day_count() * SECONDS_PER_DAY;
        if end.nanos >= NANOS_PER_SECOND || end.secs < i64::MIN + span {
            return Err(Error::RenderFailed(RenderFault::DateOutOfRange));
        }
        let start: i64 = end.secs - span;
        let week: u32 = match iso_week(start, end.nanos) {
            Some(week) => week,
            None => return Err(Error::RenderFailed(RenderFault::DateOutOfRange)),
        };
        if iso_week(end.secs, end.nanos).is_none() {
            return Err(Error::RenderFailed(RenderFault::DateOutOfRange));
        }
        let style = self.cfg.date_style.as_str();
        let from = match format_date(start, end.nanos, style) {
            Some(text) => text,
            None => return Err(Error::RenderFailed(RenderFault::InvalidDateStyle)),
        };
        let to = match format_date(end.secs, end.nanos, style) {
            Some(text) => text,
            None => return Err(Error::RenderFailed(RenderFault::InvalidDateStyle)),
        };
        buf.append("Week #");
        push_decimal(buf, week as u128);
        buf.append(": ");
        buf.append(from.as_str());
        buf.append(" - ");
        buf.append(to.as_str());
        buf.append("\n\n");
        assert(buf@ =~= old(buf)@ + title_for(self.config().date_style@, range@, end)->Ok_0);
        Ok(())
    }

    /// Appends the footer with the total time to `buf`.
    pub fn make_footer(&self, buf: &mut String, total_time: &str)
        ensures
            final(buf)@ == old(buf)@ + footer_text(total_time@),
    {
        buf.append("Total Time: ");
        buf.append(total_time);
        assert(buf@ =~= old(buf)@ + footer_text(total_time@));
    }

    /// Renders the report on `metrics` for a period that ends at `end`.
    ///
    /// With a title asked for, the label of the period must be a known one,
    /// both ends of the period must lie within the calendar, and the date
    /// style must be one that can be formatted.
    pub fn render(&self, metrics: &Metrics, end: Timestamp) -> (r: Result<String, Error>)
        requires
            metrics.wf(),
        ensures
            is_outcome(r, rendered(self.config(), *metrics, end)),
    {
        let mut buf = String::from_str("\n```text\n");
        let ghost opened = buf@;
        if self.cfg.show_title {
            match self.make_title(&mut buf, metrics.data.range.as_str(), end) {
                Ok(()) => {},
                Err(error) => return Err(error),
            }
        }
        let ghost title = buf@.subrange(opened.len() as int, buf@.len() as int);
        assert(buf@ =~= opened + title);
        self.make_table(&mut buf, metrics.data.languages.as_slice());
        if self.cfg.show_total_time {
            self.make_footer(
                &mut buf,
                metrics.data.human_readable_total_including_other_language.as_str(),
            );
        }
        buf.append("\n```\n");
        assert(buf@ =~= report_text(self.config(), *metrics, title));
        assert(title =~= if self.cfg.show_title {
            title_for(self.cfg.date_style@, metrics.data.range@, end)->Ok_0
        } else {
            Seq::empty()
        });
        Ok(buf)
    }

    /// Renders the report on `metrics` for the period that ends now.
    ///
    /// The result is that of [`Self::render`] at the instant that the system
    /// clock gave.
    pub fn process_metrics(&self, metrics: &Metrics) -> (r: Result<String, Error>)
        requires
            metrics.wf(),
        ensures
            exists|end: Timestamp| is_outcome(r, #[trigger] rendered(self.config(), *metrics, end)),
    {
        let end = now();
        self.render(metrics, end)
    }
}

} // verus!

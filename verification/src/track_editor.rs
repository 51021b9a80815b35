//! Drawing a new track on the map and posting it.
//!
//! The editor holds the river the track is for, the points clicked so far
//! and the state of the posting form. The points are of any type `P`; the
//! map holds them as coordinates.

use vstd::prelude::*;
use crate::text::{
    lemma_decimal_round_trip, parse_i64_radix, parsed_i64, push_signed_decimal, signed_decimal,
    trimmed, trim_white_space,
};

verus! {

/// The message shown when no river is chosen.
pub open spec fn no_river_message() -> Seq<char> {
    "投稿先の川を選択してください。"@
}

/// The message shown when the track has fewer than two points.
pub open spec fn too_few_points_message() -> Seq<char> {
    "経路は2点以上指定してください。"@
}

/// The message shown when the track has no name.
pub open spec fn no_name_message() -> Seq<char> {
    "経路名を入力してください。"@
}

/// The message shown when posting failed.
pub open spec fn post_failed_message() -> Seq<char> {
    "経路の投稿に失敗しました。"@
}

/// The message shown when the track was posted and given `id`.
pub open spec fn posted_message(id: i64) -> Seq<char> {
    "経路を投稿しました #"@ + signed_decimal(id as int)
}

/// The points after a click on the map: the clicked point is added when
/// editing, and a click outside of editing changes nothing.
pub open spec fn clicked<P>(editing: bool, draft: Seq<P>, point: P) -> Seq<P> {
    if editing {
        draft.push(point)
    } else {
        draft
    }
}

/// The points after undoing the last one; undoing no point changes nothing.
pub open spec fn undone<P>(draft: Seq<P>) -> Seq<P> {
    if draft.len() > 0 {
        draft.drop_last()
    } else {
        draft
    }
}

/// A track ready to be posted.
pub struct TrackSubmission<P> {
    pub river_id: i64,
    pub track_name: String,
    pub description: String,
    pub points: Vec<P>,
}

/// The state of the track editor.
pub struct TrackEditor<P> {
    /// The river the track is for.
    pub selected_river_id: Option<i64>,
    /// Whether clicks on the map add points.
    pub editing: bool,
    /// The points of the track, in the order they were clicked.
    pub draft: Vec<P>,
    /// Whether the form for the name and description is shown.
    pub show_track_form: bool,
    pub track_name: String,
    pub track_description: String,
    /// The error shown to the user.
    pub form_error: Option<String>,
    /// The confirmation shown after a track was posted.
    pub submit_result: Option<String>,
}

fn message(text: &str) -> (r: Option<String>)
    ensures
        r matches Some(m) && m@ == text@,
{
    Some(String::from_str(text))
}

fn copy_points<P: Copy>(points: &Vec<P>) -> (r: Vec<P>)
    ensures
        r@ == points@,
{
    let mut r: Vec<P> = Vec::new();
    let mut i: usize = 0;
    while i < points.len()
        invariant
            i <= points@.len(),
            r@ == points@.subrange(0, i as int),
        decreases points@.len() - i,
    {
        r.push(points[i]);
        i = i + 1;
        assert(r@ =~= points@.subrange(0, i as int));
    }
    assert(points@.subrange(0, i as int) =~= points@);
    r
}

impl<P: Copy> TrackEditor<P> {
    /// An editor with no river chosen, no points and nothing shown.
    pub fn new() -> (r: Self)
        ensures
            r.selected_river_id is None,
            !r.editing,
            r.draft@.len() == 0,
            !r.show_track_form,
            r.track_name@.len() == 0,
            r.track_description@.len() == 0,
            r.form_error is None,
            r.submit_result is None,
    {
        TrackEditor {
            selected_river_id: None,
            editing: false,
            draft: Vec::new(),
            show_track_form: false,
            track_name: String::new(),
            track_description: String::new(),
            form_error: None,
            submit_result: None,
        }
    }

    /// The rivers were loaded: the first one is chosen unless a river is
    /// chosen already.
    pub fn rivers_loaded(&mut self, first_river_id: Option<i64>)
        ensures
            final(self).selected_river_id == (if old(self).selected_river_id is None {
                first_river_id
            } else {
                old(self).selected_river_id
            }),
            final(self).draft@ == old(self).draft@,
            final(self).editing == old(self).editing,
            final(self).show_track_form == old(self).show_track_form,
            final(self).form_error == old(self).form_error,
            final(self).submit_result == old(self).submit_result,
            final(self).track_name == old(self).track_name,
            final(self).track_description == old(self).track_description,
    {
        if self.selected_river_id.is_none() {
            self.selected_river_id = first_river_id;
        }
    }

    /// The river selector changed to `value`: the river whose id it reads as
    /// is chosen, and no river when it reads as no number.
    pub fn choose_river(&mut self, value: &str)
        ensures
            final(self).selected_river_id == (match parsed_i64(value@, 10) {
                Some(v) => Some(v as i64),
                None => None,
            }),
            final(self).draft@ == old(self).draft@,
            final(self).editing == old(self).editing,
            final(self).show_track_form == old(self).show_track_form,
            final(self).form_error == old(self).form_error,
            final(self).submit_result == old(self).submit_result,
            final(self).track_name == old(self).track_name,
            final(self).track_description == old(self).track_description,
    {
        self.selected_river_id = parse_i64_radix(value, 10);
    }

    /// Editing starts: clicks add points; the form, the error and the
    /// confirmation are hidden.
    pub fn begin_edit(&mut self)
        ensures
            final(self).editing,
            !final(self).show_track_form,
            final(self).form_error is None,
            final(self).submit_result is None,
            final(self).draft@ == old(self).draft@,
            final(self).selected_river_id == old(self).selected_river_id,
            final(self).track_name == old(self).track_name,
            final(self).track_description == old(self).track_description,
    {
        self.editing = true;
        self.show_track_form = false;
        self.form_error = None;
        self.submit_result = None;
    }

    /// Editing is abandoned: the points are dropped, the form and the error
    /// are hidden.
    pub fn cancel_edit(&mut self)
        ensures
            !final(self).editing,
            !final(self).show_track_form,
            final(self).draft@.len() == 0,
            final(self).form_error is None,
            final(self).submit_result == old(self).submit_result,
            final(self).selected_river_id == old(self).selected_river_id,
            final(self).track_name == old(self).track_name,
            final(self).track_description == old(self).track_description,
    {
        self.editing = false;
        self.show_track_form = false;
        self.draft = Vec::new();
        self.form_error = None;
    }

    /// The last point is removed.
    pub fn undo_point(&mut self)
        ensures
            final(self).draft@ == undone(old(self).draft@),
            final(self).editing == old(self).editing,
            final(self).show_track_form == old(self).show_track_form,
            final(self).form_error == old(self).form_error,
            final(self).submit_result == old(self).submit_result,
            final(self).selected_river_id == old(self).selected_river_id,
            final(self).track_name == old(self).track_name,
            final(self).track_description == old(self).track_description,
    {
        self.draft.pop();
    }

    /// The map was clicked at `point`.
    pub fn map_clicked(&mut self, point: P)
        ensures
            final(self).draft@ == clicked(old(self).editing, old(self).draft@, point),
            final(self).editing == old(self).editing,
            final(self).show_track_form == old(self).show_track_form,
            final(self).form_error == old(self).form_error,
            final(self).submit_result == old(self).submit_result,
            final(self).selected_river_id == old(self).selected_river_id,
            final(self).track_name == old(self).track_name,
            final(self).track_description == old(self).track_description,
    {
        if self.editing {
            self.draft.push(point);
        }
    }

    /// The user asks to post the track: the form opens when a river is chosen
    /// and the track has at least two points; otherwise the reason is shown.
    pub fn open_track_form(&mut self)
        ensures
            old(self).selected_river_id is None ==> (final(self).form_error matches Some(m) && m@
                == no_river_message()) && final(self).show_track_form == old(self).show_track_form,
            old(self).selected_river_id is Some && old(self).draft@.len() < 2 ==> (
            final(self).form_error matches Some(m) && m@ == too_few_points_message())
                && final(self).show_track_form == old(self).show_track_form,
            old(self).selected_river_id is Some && old(self).draft@.len() >= 2 ==> final(self).form_error is None && final(self).show_track_form,
            final(self).draft@ == old(self).draft@,
            final(self).editing == old(self).editing,
            final(self).submit_result == old(self).submit_result,
            final(self).selected_river_id == old(self).selected_river_id,
            final(self).track_name == old(self).track_name,
            final(self).track_description == old(self).track_description,
    {
        self.form_error = None;
        if self.selected_river_id.is_none() {
            self.form_error = message("投稿先の川を選択してください。");
            return;
        }
        if self.draft.len() < 2 {
            self.form_error = message("経路は2点以上指定してください。");
            return;
        }
        self.show_track_form = true;
    }

    /// The form is submitted: the track to post, when a river is chosen, the
    /// name without surrounding white space is not empty and the track has at
    /// least two points; otherwise nothing is posted and the reason is shown.
    pub fn submit_track(&mut self) -> (r: Option<TrackSubmission<P>>)
        ensures
            old(self).selected_river_id is None ==> r is None && (final(self).form_error matches Some(m) && m@ == no_river_message()),
            old(self).selected_river_id is Some && trimmed(old(self).track_name@).len() == 0
                ==> r is None && (final(self).form_error matches Some(m) && m@
                == no_name_message()),
            old(self).selected_river_id is Some && trimmed(old(self).track_name@).len() > 0
                && old(self).draft@.len() < 2 ==> r is None && (final(self).form_error matches Some(m) && m@ == too_few_points_message()),
            old(self).selected_river_id is Some && trimmed(old(self).track_name@).len() > 0
                && old(self).draft@.len() >= 2 ==> final(self).form_error is None && (r matches Some(s) && old(self).selected_river_id == Some(s.river_id) && s.track_name@ == trimmed(
                old(self).track_name@,
            ) && s.description@ == old(self).track_description@ && s.points@ == old(self).draft@),
            final(self).draft@ == old(self).draft@,
            final(self).editing == old(self).editing,
            final(self).show_track_form == old(self).show_track_form,
            final(self).track_name == old(self).track_name,
            final(self).track_description == old(self).track_description,
            final(self).submit_result == old(self).submit_result,
            final(self).selected_river_id == old(self).selected_river_id,
    {
        self.form_error = None;
        let river_id = match self.selected_river_id {
            Some(id) => id,
            None => {
                self.form_error = message("投稿先の川を選択してください。");
                return None;
            },
        };
        let name = trim_white_space(self.track_name.as_str()).to_owned();
        if name.as_str().is_empty() {
            self.form_error = message("経路名を入力してください。");
            return None;
        }
        if self.draft.len() < 2 {
            self.form_error = message("経路は2点以上指定してください。");
            return None;
        }
        Some(TrackSubmission {
            river_id,
            track_name: name,
            description: self.track_description.clone(),
            points: copy_points(&self.draft),
        })
    }

    /// The track was posted and given `river_track_id`: the points, the form
    /// and its fields are cleared, and the confirmation is shown.
    pub fn track_posted(&mut self, river_track_id: i64)
        ensures
            final(self).draft@.len() == 0,
            !final(self).show_track_form,
            final(self).track_name@.len() == 0,
            final(self).track_description@.len() == 0,
            final(self).form_error is None,
            final(self).submit_result matches Some(m) && m@ == posted_message(river_track_id),
            final(self).editing == old(self).editing,
            final(self).selected_river_id == old(self).selected_river_id,
    {
        self.draft = Vec::new();
        self.show_track_form = false;
        self.track_name = String::new();
        self.track_description = String::new();
        self.form_error = None;
        let mut text = String::from_str("経路を投稿しました #");
        push_signed_decimal(&mut text, river_track_id);
        self.submit_result = Some(text);
    }

    /// Posting the track failed: the failure is shown and nothing else changes.
    pub fn track_post_failed(&mut self)
        ensures
            final(self).form_error matches Some(m) && m@ == post_failed_message(),
            final(self).draft@ == old(self).draft@,
            final(self).editing == old(self).editing,
            final(self).show_track_form == old(self).show_track_form,
            final(self).submit_result == old(self).submit_result,
            final(self).selected_river_id == old(self).selected_river_id,
            final(self).track_name == old(self).track_name,
            final(self).track_description == old(self).track_description,
    {
        self.form_error = message("経路の投稿に失敗しました。");
    }

    /// Whether the track is drawn as a line: it needs two points.
    pub fn shows_draft_line(&self) -> (r: bool)
        ensures
            r == (self.draft@.len() >= 2),
    {
        self.draft.len() >= 2
    }
}

/// The value of the river selector's option for a river: its id in decimal.
pub fn river_option_value(river_id: i64) -> (r: String)
    ensures
        r@ == signed_decimal(river_id as int),
{
    let mut s = String::new();
    push_signed_decimal(&mut s, river_id);
    assert(s@ =~= signed_decimal(river_id as int));
    s
}

/// Choosing a river's option in the selector chooses that river.
pub proof fn lemma_choosing_option_selects_river(river_id: i64)
    ensures
        (match parsed_i64(signed_decimal(river_id as int), 10) {
            Some(v) => Some(v as i64),
            None => None,
        }) == Some(river_id),
{
    lemma_decimal_round_trip(river_id);
}

/// While editing, undoing right after a click removes exactly the clicked
/// point; outside of editing a click leaves the points as they are.
pub proof fn lemma_undo_reverts_click<P>(editing: bool, draft: Seq<P>, point: P)
    ensures
        editing ==> undone(clicked(editing, draft, point)) == draft,
        !editing ==> clicked(editing, draft, point) == draft,
{
    if editing {
        assert(draft.push(point).drop_last() =~= draft);
    }
}

} // verus!

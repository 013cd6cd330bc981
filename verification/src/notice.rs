use vstd::prelude::*;

use crate::course::updated;

verus! {

/// The text of a notice to change; parts left `None` keep their value.
#[derive(Debug, Clone)]
pub struct UpdateNoticeRequest {
    pub title: Option<String>,
    pub content: Option<String>,
}

/// The title and content of a notice.
#[derive(Debug, Clone)]
pub struct NoticeText {
    pub title: String,
    pub content: String,
}

impl UpdateNoticeRequest {
    /// The notice's text after this change.
    pub open spec fn applied_to(self, t: NoticeText) -> NoticeText {
        NoticeText { title: updated(self.title, t.title), content: updated(self.content, t.content) }
    }

    /// The notice's text after this change: each part given replaces the
    /// current one.
    pub fn apply(self, current: NoticeText) -> (t: NoticeText)
        ensures
            t == self.applied_to(current),
            self.title matches Some(v) ==> t.title == v,
            self.title is None ==> t.title == current.title,
            self.content matches Some(v) ==> t.content == v,
            self.content is None ==> t.content == current.content,
    {
        NoticeText {
            title: match self.title {
                Some(v) => v,
                None => current.title,
            },
            content: match self.content {
                Some(v) => v,
                None => current.content,
            },
        }
    }
}

/// A change that gives no part leaves the notice as it is; a change made
/// twice does no more than once.
pub proof fn lemma_notice_update_laws(t: NoticeText, req: UpdateNoticeRequest)
    ensures
        req.title is None && req.content is None ==> req.applied_to(t) == t,
        req.applied_to(req.applied_to(t)) == req.applied_to(t),
{
}

/// Each part that a change gives replaces the current one, and each part it
/// leaves out keeps its value.
pub proof fn lemma_notice_update_replaces_given_parts(t: NoticeText, req: UpdateNoticeRequest)
    ensures
        req.title matches Some(v) ==> req.applied_to(t).title == v,
        req.title is None ==> req.applied_to(t).title == t.title,
        req.content matches Some(v) ==> req.applied_to(t).content == v,
        req.content is None ==> req.applied_to(t).content == t.content,
{
}

} // verus!

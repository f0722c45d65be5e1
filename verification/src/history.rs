//! Where a workspace's conversation history lives, and the empty history
//! document a fresh workspace starts from. Reading and writing the files
//! is the caller's work.

use vstd::prelude::*;
use crate::outbound::{JsonOut, field_models, item_models, out_model};
use crate::wire::JsonData;

verus! {

/// The index of the last path separator, or -1 when there is none.
pub open spec fn last_sep(s: Seq<char>) -> int
    decreases s.len(),
{
    if s.len() == 0 {
        -1
    } else if s.last() == '/' {
        s.len() - 1
    } else {
        last_sep(s.drop_last())
    }
}

/// The directory that holds the history files: a `threads` directory
/// beside the storage file.
pub open spec fn history_dir_model(storage: Seq<char>) -> Seq<char> {
    if last_sep(storage) < 0 {
        "threads"@
    } else {
        storage.subrange(0, last_sep(storage)) + "/threads"@
    }
}

proof fn lemma_last_sep_unique(s: Seq<char>, i: int)
    requires
        -1 <= i < s.len(),
        i >= 0 ==> s[i] == '/',
        forall|j: int| i < j < s.len() ==> s[j] != '/',
    ensures
        last_sep(s) == i,
    decreases s.len(),
{
    if s.len() == 0 {
    } else if i == s.len() - 1 {
    } else {
        assert(s.last() != '/');
        let t = s.drop_last();
        assert forall|j: int| i < j < t.len() implies t[j] != '/' by {
            assert(t[j] == s[j]);
        }
        if i >= 0 {
            assert(t[i] == s[i]);
        }
        lemma_last_sep_unique(t, i);
    }
}

/// The directory the per-workspace history files live in.
pub fn history_dir(storage_path: &str) -> (r: String)
    ensures
        r@ == history_dir_model(storage_path@),
{
    let n = storage_path.unicode_len();
    let mut i: usize = n;
    while i > 0 && storage_path.get_char(i - 1) != '/'
        invariant
            n == storage_path@.len(),
            0 <= i <= n,
            forall|j: int| i <= j < n ==> storage_path@[j] != '/',
        decreases i,
    {
        i = i - 1;
    }
    if i == 0 {
        proof {
            lemma_last_sep_unique(storage_path@, -1);
        }
        "threads".to_owned()
    } else {
        proof {
            lemma_last_sep_unique(storage_path@, i - 1);
        }
        let parent = storage_path.substring_char(0, i - 1);
        parent.to_owned().concat("/threads")
    }
}

/// The path of one workspace's history file, under the history directory.
pub fn history_path(storage_path: &str, workspace_id: &str) -> (r: String)
    ensures
        r@ == history_dir_model(storage_path@) + "/"@ + workspace_id@ + ".json"@,
{
    history_dir(storage_path).concat("/").concat(workspace_id).concat(".json")
}

/// The empty history document of a fresh workspace, stamped with the given
/// save time in milliseconds.
pub open spec fn default_history_model(workspace_id: Seq<char>, saved_at: u64) -> JsonData {
    JsonData::Object(
        seq![
            ("version"@, JsonData::IntP(1)),
            ("workspaceId"@, JsonData::Text(workspace_id)),
            ("threads"@, JsonData::List(Seq::empty())),
            ("itemsByThread"@, JsonData::Object(Seq::empty())),
            ("threadParentById"@, JsonData::Object(Seq::empty())),
            ("activeThreadId"@, JsonData::Null),
            ("savedAt"@, JsonData::IntP(saved_at)),
        ],
    )
}

/// Builds the empty history document of a fresh workspace.
pub fn default_history(workspace_id: &str, saved_at: u64) -> (r: JsonOut)
    ensures
        out_model(r) == default_history_model(workspace_id@, saved_at),
{
    let mut fields: Vec<(String, JsonOut)> = Vec::new();
    fields.push(("version".to_owned(), JsonOut::Num(1)));
    fields.push(("workspaceId".to_owned(), JsonOut::Text(workspace_id.to_owned())));
    fields.push(("threads".to_owned(), JsonOut::List(Vec::new())));
    fields.push(("itemsByThread".to_owned(), JsonOut::Table(Vec::new())));
    fields.push(("threadParentById".to_owned(), JsonOut::Table(Vec::new())));
    fields.push(("activeThreadId".to_owned(), JsonOut::Null));
    fields.push(("savedAt".to_owned(), JsonOut::Num(saved_at)));
    let r = JsonOut::Table(fields);
    proof {
        reveal_with_fuel(out_model, 10);
        reveal_with_fuel(field_models, 10);
        reveal_with_fuel(item_models, 5);
        assert(out_model(r) matches JsonData::Object(fs) && fs =~~= default_history_model(
            workspace_id@,
            saved_at,
        )->Object_0);
    }
    r
}

} // verus!

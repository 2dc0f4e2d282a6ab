//! The directory listing: which entries it holds, in which order, and the
//! responses built for a listed directory and for a missing path.

use vstd::prelude::*;
use vstd::seq_lib::group_to_multiset_ensures;
use vstd::seq_lib::lemma_multiset_commutative;
use vstd::string::StrSliceExecFns;
use vstd::string::StringExecFns;
use crate::order::lex_sorted;
use crate::order::sort_names;
use crate::response::error_text;
use crate::response::Body;
use crate::response::Response;
use crate::response::STATUS_FORBIDDEN;
use crate::response::STATUS_INTERNAL_SERVER_ERROR;
use crate::response::STATUS_NOT_FOUND;
use crate::response::STATUS_OK;
use crate::templates::render_error_template;
use crate::templates::render_listing_template;
use crate::templates::template_response;

verus! {

/// One direct child of a listed directory, as the filesystem reports it:
/// its name, and whether it is itself a directory.
#[derive(Debug)]
pub struct DirEntry {
    pub name: String,
    pub is_dir: bool,
}

/// The name under which a child appears in the listing: directories carry
/// a trailing separator, everything else appears verbatim.
pub open spec fn marked_name(e: DirEntry) -> Seq<char> {
    if e.is_dir {
        e.name@.push('/')
    } else {
        e.name@
    }
}

/// The decoded path that names the root directory itself.
pub open spec fn is_root_path(p: Seq<char>) -> bool {
    p == seq!['/']
}

/// The parent-directory entry, prepended to every listing but the root's.
pub open spec fn parent_entry() -> Seq<char> {
    seq!['.', '.', '/']
}

/// The names a listing of the given children under the given decoded path
/// holds, before sorting: the parent-directory entry unless the path is
/// the root, then every child under its marked name.
pub open spec fn listing_names(uri_path: Seq<char>, children: Seq<DirEntry>) -> Seq<Seq<char>> {
    let marked = children.map_values(|e: DirEntry| marked_name(e));
    if is_root_path(uri_path) {
        marked
    } else {
        seq![parent_entry()] + marked
    }
}

/// Whether a decoded path names the root directory itself.
pub fn is_root(uri_path: &str) -> (r: bool)
    ensures
        r == is_root_path(uri_path@),
{
    proof {
        reveal_strlit("/");
    }
    if uri_path.unicode_len() == 1 && uri_path.get_char(0) == '/' {
        proof {
            assert(uri_path@ =~= seq!['/']);
        }
        true
    } else {
        proof {
            assert(seq!['/'].len() == 1);
        }
        false
    }
}

/// Build the listing's entry names for a directory's children: the
/// parent-directory entry unless the path is the root, each directory
/// child marked with a trailing separator, and the whole list sorted
/// lexicographically.
pub fn build_listing_entries(uri_path: &str, children: Vec<DirEntry>) -> (out: Vec<String>)
    ensures
        lex_sorted(out.deep_view()),
        out.deep_view().to_multiset() == listing_names(uri_path@, children@).to_multiset(),
{
    let ghost expected = listing_names(uri_path@, children@);
    let mut names: Vec<String> = Vec::new();
    if !is_root(uri_path) {
        names.push(String::from_str("../"));
        proof {
            reveal_strlit("../");
            assert("../"@ =~= parent_entry());
        }
    }
    let ghost prefix = names.deep_view();
    proof {
        if is_root_path(uri_path@) {
            assert(prefix =~= Seq::<Seq<char>>::empty());
        } else {
            assert(prefix =~= seq![parent_entry()]);
        }
    }
    let mut i: usize = 0;
    while i < children.len()
        invariant
            i <= children.len(),
            names.deep_view() =~= prefix + children@.take(i as int).map_values(
                |e: DirEntry| marked_name(e),
            ),
        decreases children.len() - i,
    {
        let mut name = children[i].name.clone();
        if children[i].is_dir {
            name.append("/");
            proof {
                reveal_strlit("/");
                assert(name@ =~= children@[i as int].name@.push('/'));
            }
        }
        let ghost names_dv = names.deep_view();
        names.push(name);
        proof {
            assert(name@ == marked_name(children@[i as int]));
            assert(names.deep_view() =~= names_dv.push(name@));
            assert(children@.take(i as int + 1) =~= children@.take(i as int).push(
                children@[i as int],
            ));
            assert(children@.take(i as int + 1).map_values(|e: DirEntry| marked_name(e))
                =~= children@.take(i as int).map_values(|e: DirEntry| marked_name(e)).push(
                marked_name(children@[i as int]),
            ));
            assert(names.deep_view() =~= prefix + children@.take(i as int + 1).map_values(
                |e: DirEntry| marked_name(e),
            ));
        }
        i = i + 1;
    }
    proof {
        assert(children@.take(children.len() as int) =~= children@);
        assert(names.deep_view() =~= expected);
    }
    sort_names(names)
}

/// Build the response for a directory listed with its trailing separator,
/// from the result of enumerating its children.
///
/// When the enumeration succeeded, the children's names are assembled and
/// sorted by `build_listing_entries` and rendered through the listing
/// template: the document under the success status, or the internal-error
/// response when the template fails. When the enumeration itself failed
/// (insufficient permissions, commonly), the response is forbidden, with
/// the error as plain text, and no template is rendered for the path.
pub fn list_directory(
    tera: &tera::Tera,
    uri_path: &str,
    entries: Result<Vec<DirEntry>, String>,
) -> (resp: Response)
    ensures
        resp.location is None,
        match entries {
            Ok(children) => (resp.status == STATUS_OK || resp.status
                == STATUS_INTERNAL_SERVER_ERROR) && resp.body is Text,
            Err(e) => resp.status == STATUS_FORBIDDEN && (resp.body matches Body::Text(t) && t@
                == "Error: "@ + e@),
        },
        resp.status == STATUS_INTERNAL_SERVER_ERROR ==> (resp.body matches Body::Text(t)
            && "Templating error: "@.is_prefix_of(t@)),
{
    match entries {
        Ok(children) => {
            let names = build_listing_entries(uri_path, children);
            let rendered = render_listing_template(tera, uri_path, &names);
            template_response(rendered, STATUS_OK)
        },
        Err(e) => Response {
            status: STATUS_FORBIDDEN,
            location: None,
            body: Body::Text(error_text(e.as_str())),
        },
    }
}

/// Build the response for a path that resolves to nothing: the error
/// template rendered with the not-found code and message, or the
/// internal-error response when the template fails. The filesystem is not
/// touched again for such a path.
pub fn not_found(tera: &tera::Tera) -> (resp: Response)
    ensures
        resp.location is None,
        resp.status == STATUS_NOT_FOUND || resp.status == STATUS_INTERNAL_SERVER_ERROR,
        resp.body is Text,
        resp.status == STATUS_INTERNAL_SERVER_ERROR ==> (resp.body matches Body::Text(t)
            && "Templating error: "@.is_prefix_of(t@)),
{
    let rendered = render_error_template(tera, "404", "File not found");
    template_response(rendered, STATUS_NOT_FOUND)
}

/// The listing holds every child: any list of names that holds exactly
/// the listing's names — in whatever order — holds each child's marked
/// name.
pub proof fn lemma_listing_complete(
    uri_path: Seq<char>,
    children: Seq<DirEntry>,
    out: Seq<Seq<char>>,
)
    requires
        out.to_multiset() == listing_names(uri_path, children).to_multiset(),
    ensures
        forall|i: int| 0 <= i < children.len() ==> out.contains(marked_name(children[i])),
{
    broadcast use group_to_multiset_ensures;

    let names = listing_names(uri_path, children);
    let marked = children.map_values(|e: DirEntry| marked_name(e));
    assert forall|i: int| 0 <= i < children.len() implies out.contains(marked_name(children[i])) by {
        let m = marked_name(children[i]);
        assert(marked[i] == m);
        assert(marked.contains(m));
        if !is_root_path(uri_path) {
            assert(names[i + 1] == marked[i]);
        }
        assert(names.contains(m));
        assert(names.to_multiset().count(m) > 0);
        assert(out.to_multiset().count(m) > 0);
        assert(out.contains(m));
    }
}

/// A listing of the root path holds no parent-directory entry; a listing
/// of any other path holds exactly one, provided no child appears in the
/// listing under the parent entry's own name. Stated of any list of names
/// that holds exactly the listing's names, in whatever order — so in
/// particular of the sorted list `build_listing_entries` returns.
pub proof fn lemma_parent_entry_count(
    uri_path: Seq<char>,
    children: Seq<DirEntry>,
    out: Seq<Seq<char>>,
)
    requires
        out.to_multiset() == listing_names(uri_path, children).to_multiset(),
        forall|i: int| 0 <= i < children.len() ==> marked_name(children[i]) != parent_entry(),
    ensures
        out.to_multiset().count(parent_entry()) == if is_root_path(uri_path) {
            0int
        } else {
            1int
        },
{
    broadcast use group_to_multiset_ensures;

    let marked = children.map_values(|e: DirEntry| marked_name(e));
    assert(!marked.contains(parent_entry()));
    assert(marked.to_multiset().count(parent_entry()) == 0);
    if !is_root_path(uri_path) {
        let single = seq![parent_entry()];
        lemma_multiset_commutative(single, marked);
        assert(single =~= Seq::<Seq<char>>::empty().push(parent_entry()));
        assert(single.to_multiset() =~= Seq::<Seq<char>>::empty().to_multiset().insert(
            parent_entry(),
        ));
        assert(single.to_multiset().count(parent_entry()) == 1);
    }
}

} // verus!

//! The page that the static file server shows for a directory.
use vstd::prelude::*;

verus! {

/// An entry of a listed directory.
#[derive(Debug)]
pub struct ListedEntry {
    /// The entry's file name.
    pub name: String,
    /// Whether the entry is itself a directory.
    pub is_dir: bool,
}

/// The list item of one entry: a link to it, with a trailing slash for a directory.
pub open spec fn entry_item(name: Seq<char>, is_dir: bool) -> Seq<char> {
    let shown = if is_dir {
        name + "/"@
    } else {
        name
    };
    "<li><a href=\""@ + shown + "\">"@ + shown + "</a></li>"@
}

/// The list items of the first `n` entries.
pub open spec fn entry_items(entries: Seq<ListedEntry>, n: nat) -> Seq<char>
    decreases n,
{
    if n == 0 || n > entries.len() {
        Seq::empty()
    } else {
        entry_items(entries, (n - 1) as nat) + entry_item(
            entries[n - 1].name@,
            entries[n - 1].is_dir,
        )
    }
}

/// The HTML page that lists `entries` in order.
pub open spec fn listing_page(entries: Seq<ListedEntry>) -> Seq<char> {
    "<html><body><ul>"@ + entry_items(entries, entries.len()) + "</ul></body></html>"@
}

/// Renders the HTML page that lists the entries of a directory.
pub fn directory_listing(entries: &Vec<ListedEntry>) -> (r: String)
    ensures
        r@ == listing_page(entries@),
{
    let mut html = "<html><body><ul>".to_owned();
    let mut i: usize = 0;
    while i < entries.len()
        invariant
            i <= entries@.len(),
            html@ == "<html><body><ul>"@ + entry_items(entries@, i as nat),
        decreases entries@.len() - i,
    {
        let entry = &entries[i];
        let ghost before = html@;
        html.append("<li><a href=\"");
        html.append(entry.name.as_str());
        if entry.is_dir {
            html.append("/");
        }
        html.append("\">");
        html.append(entry.name.as_str());
        if entry.is_dir {
            html.append("/");
        }
        html.append("</a></li>");
        proof {
            assert(html@ =~= before + entry_item(entries@[i as int].name@, entries@[i as int].is_dir));
        }
        i = i + 1;
    }
    html.append("</ul></body></html>");
    html
}

} // verus!

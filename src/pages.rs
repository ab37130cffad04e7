//! Pieces of the admin pages that depend on what is shown to the user.
use vstd::prelude::*;

verus! {

/// One paragraph per message, each on its own line, in order.
pub open spec fn messages_html(messages: Seq<Seq<char>>) -> Seq<char>
    decreases messages.len(),
{
    if messages.len() == 0 {
        Seq::empty()
    } else {
        messages_html(messages.drop_last()) + "<p><i>"@ + messages.last() + "</i></p>\n"@
    }
}

/// Renders the one-time messages of a page as HTML paragraphs.
pub fn flash_messages_html(messages: &Vec<String>) -> (r: String)
    ensures
        r@ == messages_html(messages@.map_values(|m: String| m@)),
{
    let mut html = String::new();
    let mut i: usize = 0;
    while i < messages.len()
        invariant
            i <= messages@.len(),
            html@ == messages_html(messages@.take(i as int).map_values(|m: String| m@)),
        decreases messages@.len() - i,
    {
        html.append("<p><i>");
        html.append(messages[i].as_str());
        html.append("</i></p>\n");
        proof {
            let next = messages@.take(i + 1).map_values(|m: String| m@);
            assert(next.drop_last() =~= messages@.take(i as int).map_values(|m: String| m@));
        }
        i = i + 1;
    }
    assert(messages@.take(i as int) =~= messages@);
    html
}

} // verus!

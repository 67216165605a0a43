//! Notification formatter: a listing together with its optional
//! enrichment, rendered as a plain console summary and as a rich-text
//! message body for the messaging endpoint.

use vstd::prelude::*;

use crate::extract::{ClassifiedsDetails, ClassifiedsUser};
use crate::feed::ClassifiedsItem;
use crate::store::views_of;
use crate::text::{chars_to_string, push_all, str_to_chars};

verus! {

/// The view of an optional borrowed string.
pub open spec fn opt_view(o: Option<&str>) -> Option<Seq<char>> {
    match o {
        Some(s) => Some(s@),
        None => None,
    }
}

/// A listing with whatever enrichment the detail and profile pages
/// yielded; both parts are optional and best-effort.
pub struct ItemWithExtraData {
    pub item: ClassifiedsItem,
    pub details: Option<ClassifiedsDetails>,
    pub user: Option<ClassifiedsUser>,
}

impl ItemWithExtraData {
    pub fn new(
        item: ClassifiedsItem,
        details: Option<ClassifiedsDetails>,
        user: Option<ClassifiedsUser>,
    ) -> (r: ItemWithExtraData)
        ensures
            r.item == item,
            r.details == details,
            r.user == user,
    {
        ItemWithExtraData { item, details, user }
    }

    pub open spec fn price_spec(&self) -> Option<Seq<char>> {
        match self.details {
            Some(d) => match d.price {
                Some(p) => Some(p@),
                None => None,
            },
            None => None,
        }
    }

    pub open spec fn photo_url_spec(&self) -> Option<Seq<char>> {
        match self.details {
            Some(d) => if d.photo_urls@.len() > 0 {
                Some(d.photo_urls@[0]@)
            } else {
                None
            },
            None => None,
        }
    }

    pub open spec fn thumbnail_url_spec(&self) -> Option<Seq<char>> {
        match self.item.image_url {
            Some(u) => Some(u@),
            None => None,
        }
    }

    pub open spec fn description_spec(&self) -> Option<Seq<char>> {
        match self.item.description {
            Some(d) => Some(d@),
            None => None,
        }
    }

    pub open spec fn item_location_spec(&self) -> Option<Seq<char>> {
        match self.details {
            Some(d) => match d.location {
                Some(l) => Some(l@),
                None => None,
            },
            None => None,
        }
    }

    pub open spec fn user_name_spec(&self) -> Option<Seq<char>> {
        match self.user {
            Some(u) => match u.name {
                Some(n) => Some(n@),
                None => None,
            },
            None => None,
        }
    }

    pub open spec fn user_location_spec(&self) -> Option<Seq<char>> {
        match self.user {
            Some(u) => match u.location {
                Some(l) => Some(l@),
                None => None,
            },
            None => None,
        }
    }

    /// The listing's location: the detail page's, else the seller's.
    pub open spec fn location_spec(&self) -> Option<Seq<char>> {
        match self.item_location_spec() {
            Some(l) => Some(l),
            None => self.user_location_spec(),
        }
    }

    pub open spec fn user_link_spec(&self) -> Option<Seq<char>> {
        match self.details {
            Some(d) => match d.user_link {
                Some(l) => Some(l@),
                None => None,
            },
            None => None,
        }
    }

    pub fn title(&self) -> (r: &str)
        ensures
            r@ == self.item.title@,
    {
        self.item.title.as_str()
    }

    pub fn link(&self) -> (r: &str)
        ensures
            r@ == self.item.link@,
    {
        self.item.link.as_str()
    }

    pub fn price(&self) -> (r: Option<&str>)
        ensures
            opt_view(r) == self.price_spec(),
    {
        match &self.details {
            Some(d) => match &d.price {
                Some(p) => Some(p.as_str()),
                None => None,
            },
            None => None,
        }
    }

    pub fn description(&self) -> (r: Option<&str>)
        ensures
            opt_view(r) == self.description_spec(),
    {
        match &self.item.description {
            Some(d) => Some(d.as_str()),
            None => None,
        }
    }

    pub fn photo_url(&self) -> (r: Option<&str>)
        ensures
            opt_view(r) == self.photo_url_spec(),
    {
        match &self.details {
            Some(d) => if d.photo_urls.len() > 0 {
                Some(d.photo_urls[0].as_str())
            } else {
                None
            },
            None => None,
        }
    }

    pub fn thumbnail_url(&self) -> (r: Option<&str>)
        ensures
            opt_view(r) == self.thumbnail_url_spec(),
    {
        match &self.item.image_url {
            Some(u) => Some(u.as_str()),
            None => None,
        }
    }

    pub fn item_location(&self) -> (r: Option<&str>)
        ensures
            opt_view(r) == self.item_location_spec(),
    {
        match &self.details {
            Some(d) => match &d.location {
                Some(l) => Some(l.as_str()),
                None => None,
            },
            None => None,
        }
    }

    pub fn user_name(&self) -> (r: Option<&str>)
        ensures
            opt_view(r) == self.user_name_spec(),
    {
        match &self.user {
            Some(u) => match &u.name {
                Some(n) => Some(n.as_str()),
                None => None,
            },
            None => None,
        }
    }

    pub fn user_location(&self) -> (r: Option<&str>)
        ensures
            opt_view(r) == self.user_location_spec(),
    {
        match &self.user {
            Some(u) => match &u.location {
                Some(l) => Some(l.as_str()),
                None => None,
            },
            None => None,
        }
    }

    pub fn location(&self) -> (r: Option<&str>)
        ensures
            opt_view(r) == self.location_spec(),
    {
        match self.item_location() {
            Some(l) => Some(l),
            None => self.user_location(),
        }
    }

    pub fn user_link(&self) -> (r: Option<&str>)
        ensures
            opt_view(r) == self.user_link_spec(),
    {
        match &self.details {
            Some(d) => match &d.user_link {
                Some(l) => Some(l.as_str()),
                None => None,
            },
            None => None,
        }
    }

    /// The seller line's text: `name (location)`, or whichever of the
    /// two is known.
    pub open spec fn user_description_spec(&self) -> Option<Seq<char>> {
        match (self.user_name_spec(), self.location_spec()) {
            (Some(n), Some(l)) => Some(n + " ("@ + l + ")"@),
            (Some(n), None) => Some(n),
            (None, Some(l)) => Some(l),
            (None, None) => None,
        }
    }

    pub fn user_description(&self) -> (r: Option<String>)
        ensures
            crate::extract::view_opt(r) == self.user_description_spec(),
    {
        match (self.user_name(), self.location()) {
            (Some(n), Some(l)) => {
                let mut out: Vec<char> = Vec::new();
                let name_chars = str_to_chars(n);
                let open_paren = str_to_chars(" (");
                let loc_chars = str_to_chars(l);
                let close_paren = str_to_chars(")");
                push_all(&mut out, &name_chars);
                push_all(&mut out, &open_paren);
                push_all(&mut out, &loc_chars);
                push_all(&mut out, &close_paren);
                Some(chars_to_string(&out))
            },
            (Some(n), None) => {
                let chars = str_to_chars(n);
                Some(chars_to_string(&chars))
            },
            (None, Some(l)) => {
                let chars = str_to_chars(l);
                Some(chars_to_string(&chars))
            },
            (None, None) => None,
        }
    }

    /// The marker beside the seller line: a person when the seller's
    /// name is known, a globe when only a location is known, nothing
    /// when neither.
    pub open spec fn user_emoji_spec(&self) -> Option<Seq<char>> {
        match (self.user_name_spec(), self.location_spec()) {
            (Some(n), _) => Some("\u{1F9D1}\u{200D}\u{2708}\u{FE0F}"@),
            (None, Some(l)) => Some("\u{1F30D}"@),
            (None, None) => None,
        }
    }

    pub fn user_emoji(&self) -> (r: Option<&str>)
        ensures
            opt_view(r) == self.user_emoji_spec(),
    {
        match (self.user_name(), self.location()) {
            // person-pilot marker
            (Some(_), _) => Some("\u{1F9D1}\u{200D}\u{2708}\u{FE0F}"),
            // globe marker
            (None, Some(_)) => Some("\u{1F30D}"),
            (None, None) => None,
        }
    }

    /// The seller line of the rich body: marker, then the seller text as
    /// a hyperlink to the profile when its link is known, bold either
    /// way; empty when nothing about the seller is known.
    pub open spec fn seller_line_spec(&self) -> Seq<char> {
        match (self.user_description_spec(), self.user_emoji_spec()) {
            (Some(desc), Some(emoji)) => match self.user_link_spec() {
                Some(ulink) => emoji + "  <a href=\""@ + ulink + "\"><b>"@ + desc + "</b></a>\n"@,
                None => emoji + "  <b>"@ + desc + "</b>\n"@,
            },
            _ => Seq::empty(),
        }
    }

    /// The bolded price line of the rich body, when a price is known.
    pub open spec fn price_line_spec(&self) -> Seq<char> {
        match self.price_spec() {
            Some(p) => "<b>\u{1F4B6}  "@ + p + "</b>\n"@,
            None => Seq::empty(),
        }
    }

    /// The rich message body: title as a hyperlink, the price line, the
    /// seller line, the description paragraph, and the link repeated at
    /// the end.
    pub open spec fn telegram_text_spec(&self) -> Seq<char> {
        "<a href=\""@ + self.item.link@ + "\"><b>"@ + self.item.title@ + "</b></a>\n"@
            + self.price_line_spec() + self.seller_line_spec() + (match self.description_spec() {
            Some(d) => "\n"@ + d + "\n"@,
            None => Seq::empty(),
        }) + "\n"@ + self.item.link@
    }

    /// The short rich body: the same without the description paragraph.
    pub open spec fn telegram_text_short_spec(&self) -> Seq<char> {
        "<a href=\""@ + self.item.link@ + "\"><b>"@ + self.item.title@ + "</b></a>\n"@
            + self.price_line_spec() + self.seller_line_spec() + "\n"@ + self.item.link@
    }

    /// The body head shared by the full and the short rendering: title
    /// hyperlink, price line, seller line.
    fn telegram_head(&self) -> (r: Vec<char>)
        ensures
            r@ == "<a href=\""@ + self.item.link@ + "\"><b>"@ + self.item.title@ + "</b></a>\n"@
                + self.price_line_spec() + self.seller_line_spec(),
    {
        let mut out: Vec<char> = Vec::new();
        let a_open = str_to_chars("<a href=\"");
        let a_mid = str_to_chars("\"><b>");
        let a_close = str_to_chars("</b></a>\n");
        let link_chars = str_to_chars(self.item.link.as_str());
        let title_chars = str_to_chars(self.item.title.as_str());
        push_all(&mut out, &a_open);
        push_all(&mut out, &link_chars);
        push_all(&mut out, &a_mid);
        push_all(&mut out, &title_chars);
        push_all(&mut out, &a_close);
        match self.price() {
            Some(p) => {
                // bolded price line with the banknote marker
                let b_open = str_to_chars("<b>\u{1F4B6}  ");
                let b_close = str_to_chars("</b>\n");
                let p_chars = str_to_chars(p);
                push_all(&mut out, &b_open);
                push_all(&mut out, &p_chars);
                push_all(&mut out, &b_close);
            },
            None => {},
        }
        let desc = self.user_description();
        let emoji = self.user_emoji();
        match (desc, emoji) {
            (Some(d), Some(e)) => {
                let e_chars = str_to_chars(e);
                let d_chars = str_to_chars(d.as_str());
                push_all(&mut out, &e_chars);
                match self.user_link() {
                    Some(ulink) => {
                        let mid = str_to_chars("  <a href=\"");
                        let mid2 = str_to_chars("\"><b>");
                        let tail = str_to_chars("</b></a>\n");
                        let u_chars = str_to_chars(ulink);
                        push_all(&mut out, &mid);
                        push_all(&mut out, &u_chars);
                        push_all(&mut out, &mid2);
                        push_all(&mut out, &d_chars);
                        push_all(&mut out, &tail);
                    },
                    None => {
                        let mid = str_to_chars("  <b>");
                        let tail = str_to_chars("</b>\n");
                        push_all(&mut out, &mid);
                        push_all(&mut out, &d_chars);
                        push_all(&mut out, &tail);
                    },
                }
            },
            _ => {},
        }
        assert(out@ =~= "<a href=\""@ + self.item.link@ + "\"><b>"@ + self.item.title@
            + "</b></a>\n"@ + self.price_line_spec() + self.seller_line_spec());
        out
    }

    /// Render the full rich message body.
    pub fn telegram_text(&self) -> (r: String)
        ensures
            r@ == self.telegram_text_spec(),
    {
        let mut out = self.telegram_head();
        match self.description() {
            Some(d) => {
                let nl = str_to_chars("\n");
                let d_chars = str_to_chars(d);
                push_all(&mut out, &nl);
                push_all(&mut out, &d_chars);
                push_all(&mut out, &nl);
            },
            None => {},
        }
        let nl = str_to_chars("\n");
        let link_chars = str_to_chars(self.item.link.as_str());
        push_all(&mut out, &nl);
        push_all(&mut out, &link_chars);
        assert(out@ =~= self.telegram_text_spec());
        chars_to_string(&out)
    }

    /// Render the short rich message body, without the description.
    pub fn telegram_text_short(&self) -> (r: String)
        ensures
            r@ == self.telegram_text_short_spec(),
    {
        let mut out = self.telegram_head();
        let nl = str_to_chars("\n");
        let link_chars = str_to_chars(self.item.link.as_str());
        push_all(&mut out, &nl);
        push_all(&mut out, &link_chars);
        assert(out@ =~= self.telegram_text_short_spec());
        chars_to_string(&out)
    }

    /// The body actually sent under a per-message length ceiling: the
    /// full body when it fits, else the short one.
    pub fn message_for_limit(&self, limit: usize) -> (r: String)
        ensures
            r@ == if self.telegram_text_spec().len() <= limit {
                self.telegram_text_spec()
            } else {
                self.telegram_text_short_spec()
            },
    {
        let full = self.telegram_text();
        let chars = str_to_chars(full.as_str());
        if chars.len() <= limit {
            full
        } else {
            self.telegram_text_short()
        }
    }

    /// The console rendering: title line, optional price line, optional
    /// seller line, link line.
    pub open spec fn console_lines_spec(&self) -> Seq<Seq<char>> {
        seq![" - "@ + self.item.title@] + (match self.price_spec() {
            Some(p) => seq!["   \u{1F4B6}  "@ + p],
            None => Seq::empty(),
        }) + (match (self.user_description_spec(), self.user_emoji_spec()) {
            (Some(d), Some(e)) => seq!["   "@ + e + "  "@ + d],
            _ => Seq::empty(),
        }) + seq!["   "@ + self.item.link@]
    }

    /// Render the console summary, one line per entry.
    pub fn console_lines(&self) -> (r: Vec<String>)
        ensures
            views_of(r@) == self.console_lines_spec(),
    {
        let mut out: Vec<String> = Vec::new();
        let mut line: Vec<char> = Vec::new();
        let dash = str_to_chars(" - ");
        let title_chars = str_to_chars(self.item.title.as_str());
        push_all(&mut line, &dash);
        push_all(&mut line, &title_chars);
        out.push(chars_to_string(&line));
        match self.price() {
            Some(p) => {
                // price line with the banknote marker
                let mut pl: Vec<char> = Vec::new();
                let head = str_to_chars("   \u{1F4B6}  ");
                let p_chars = str_to_chars(p);
                push_all(&mut pl, &head);
                push_all(&mut pl, &p_chars);
                out.push(chars_to_string(&pl));
            },
            None => {},
        }
        let desc = self.user_description();
        let emoji = self.user_emoji();
        match (desc, emoji) {
            (Some(d), Some(e)) => {
                let mut ul: Vec<char> = Vec::new();
                let head = str_to_chars("   ");
                let sep = str_to_chars("  ");
                let e_chars = str_to_chars(e);
                let d_chars = str_to_chars(d.as_str());
                push_all(&mut ul, &head);
                push_all(&mut ul, &e_chars);
                push_all(&mut ul, &sep);
                push_all(&mut ul, &d_chars);
                out.push(chars_to_string(&ul));
            },
            _ => {},
        }
        let mut ll: Vec<char> = Vec::new();
        let head = str_to_chars("   ");
        let link_chars = str_to_chars(self.item.link.as_str());
        push_all(&mut ll, &head);
        push_all(&mut ll, &link_chars);
        out.push(chars_to_string(&ll));
        assert(views_of(out@) =~= self.console_lines_spec());
        out
    }
}

} // verus!

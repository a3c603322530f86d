//! The page where the browser lands after the authorization.

use vstd::prelude::*;
use vstd::utf8::{decode_utf8, valid_utf8};

use crate::messages::Message;
use crate::text::{optional_text, same_text};

verus! {

/// The style of the landing page.
pub const STYLE: &'static str = "
        /* Add support for light and dark schemes. */
        :root {
            color-scheme: light dark;
        }

        body {
            /* Make sure that the page takes all the visible height. */
            height: 100vh;

            /* Cancel default margin in some browsers. */
            margin: 0;

            /* Apply the same colors as libadwaita. */
            color: light-dark(RGB(0 0 6 / 80%), #ffffff);
            background-color: light-dark(#ffffff, #1d1d20);
        }

        .content {
            /* Center the content in the page. */
            display: flex;
            flex-direction: column;
            justify-content: center;
            align-items: center;
            text-align: center;

            /* It looks better if the content is not absolutely vertically
             * centered, so we cheat by reducing the height of the container.
             */
            height: 80%;

            /* Use the GNOME default font if possible.
             * Since Adwaita Sans is based on Inter, use it as a fallback.
             */
            font-family: \"Adwaita Sans\", Inter, sans-serif;

            /* Add padding to have space around the text when the window is
             * narrow.
             */
            padding: 12px;
        }
        ";

/// The landing page before the name of the application.
pub const PAGE_START: &'static str = "<!doctype html>\n        <html>\n            <head>\n                <meta charset=\"utf-8\">\n                <title>";

/// What separates the name of the application from the title.
pub const TITLE_SEPARATOR: &'static str = " - ";

/// The landing page between the title and the style.
pub const BEFORE_STYLE: &'static str = "</title>\n                <style>";

/// The landing page between the style and the icon.
pub const BEFORE_ICON: &'static str = "</style>\n            </head>\n            <body>\n                <div class=\"content\">\n                    ";

/// The landing page between the icon and the heading.
pub const BEFORE_HEADING: &'static str = "\n                    <h1>";

/// The landing page between the heading and the message.
pub const BEFORE_MESSAGE: &'static str = "</h1>\n                    <p>";

/// The landing page after the message.
pub const PAGE_END: &'static str = "</p>\n                </div>\n            </body>\n        </html>\n        ";

/// The XML prologue of the application icon.
pub const XML_PROLOGUE: &'static str = "<?xml version=\"1.0\" encoding=\"UTF-8\"?>";

/// What comes before the embedded icon.
pub const ICON_START: &'static str = "<div aria-hidden=\"true\">";

/// What comes after the embedded icon.
pub const ICON_END: &'static str = "</div>";

/// Why there is no application icon.
#[derive(Debug, Clone, Copy, PartialEq, Eq, Structural)]
pub enum SvgIconError {
    /// The icon is not in the resources of the application.
    NotFound,
    /// The icon is not a UTF-8 string.
    NotUtf8,
    /// The icon does not start with the XML prologue.
    NoXmlPrologue,
}

/// The title of the landing page.
pub const PAGE_TITLE: Message = Message::AuthorizationCompleted;

/// The message of the landing page.
pub const PAGE_MESSAGE: Message = Message::AuthorizationStepComplete;

/// Whether a character has the Unicode property `White_Space`.
pub open spec fn is_white_space(c: char) -> bool {
    let code = c as u32;
    ||| 0x9 <= code <= 0xd
    ||| code == 0x20
    ||| code == 0x85
    ||| code == 0xa0
    ||| code == 0x1680
    ||| 0x2000 <= code <= 0x200a
    ||| code == 0x2028
    ||| code == 0x2029
    ||| code == 0x202f
    ||| code == 0x205f
    ||| code == 0x3000
}

/// A text without its leading whitespace.
pub open spec fn without_leading_white_space(s: Seq<char>) -> Seq<char>
    decreases s.len(),
{
    if s.len() > 0 && is_white_space(s.first()) {
        without_leading_white_space(s.drop_first())
    } else {
        s
    }
}

/// A text without its trailing whitespace.
pub open spec fn without_trailing_white_space(s: Seq<char>) -> Seq<char>
    decreases s.len(),
{
    if s.len() > 0 && is_white_space(s.last()) {
        without_trailing_white_space(s.drop_last())
    } else {
        s
    }
}

/// A text without its leading and trailing whitespace.
pub open spec fn trimmed(s: Seq<char>) -> Seq<char> {
    without_trailing_white_space(without_leading_white_space(s))
}

/// The icon to embed, made of the bytes that were looked up.
pub open spec fn embedded_icon(bytes: Option<Seq<u8>>) -> Result<Seq<char>, SvgIconError> {
    match bytes {
        None => Err(SvgIconError::NotFound),
        Some(bytes) => if !valid_utf8(bytes) {
            Err(SvgIconError::NotUtf8)
        } else {
            let icon = trimmed(decode_utf8(bytes));
            if XML_PROLOGUE@.is_prefix_of(icon) {
                Ok(ICON_START@ + icon.skip(XML_PROLOGUE@.len() as int) + ICON_END@)
            } else {
                Err(SvgIconError::NoXmlPrologue)
            }
        },
    }
}

/// The HTML code of the landing page.
pub open spec fn landing_page_html(
    app_name: Seq<char>,
    title: Seq<char>,
    message: Seq<char>,
    icon: Seq<char>,
) -> Seq<char> {
    PAGE_START@ + app_name + TITLE_SEPARATOR@ + title + BEFORE_STYLE@ + STYLE@ + BEFORE_ICON@ + icon
        + BEFORE_HEADING@ + title + BEFORE_MESSAGE@ + message + PAGE_END@
}

/// Decodes bytes with `String::from_utf8`.
///
/// That function is trusted to succeed exactly on valid UTF-8, and to decode it.
#[verifier::external_body]
fn from_utf8(bytes: Vec<u8>) -> (text: Option<String>)
    ensures
        optional_text(text) == if valid_utf8(bytes@) {
            Some(decode_utf8(bytes@))
        } else {
            None
        },
{
    String::from_utf8(bytes).ok()
}

/// Whether a character has the Unicode property `White_Space`.
fn has_white_space_property(c: char) -> (white_space: bool)
    ensures
        white_space == is_white_space(c),
{
    let code: u32 = c as u32;
    (0x9 <= code && code <= 0xd) || code == 0x20 || code == 0x85 || code == 0xa0 || code == 0x1680
        || (0x2000 <= code && code <= 0x200a) || code == 0x2028 || code == 0x2029 || code == 0x202f
        || code == 0x205f || code == 0x3000
}

/// Removes leading and trailing whitespace from a text.
fn trim(text: &str) -> (rest: &str)
    ensures
        rest@ == trimmed(text@),
{
    let len: usize = text.unicode_len();
    let mut start: usize = 0;
    assert(text@.skip(0) =~= text@);
    while start < len && has_white_space_property(text.get_char(start))
        invariant
            start <= len,
            len == text@.len(),
            without_leading_white_space(text@) == without_leading_white_space(
                text@.skip(start as int),
            ),
        decreases len - start,
    {
        assert(text@.skip(start as int).drop_first() =~= text@.skip(start + 1));
        start += 1;
    }
    let mut end: usize = len;
    let ghost rest = text@.skip(start as int);
    assert(rest =~= text@.subrange(start as int, end as int));
    while start < end && has_white_space_property(text.get_char(end - 1))
        invariant
            start <= end <= len,
            len == text@.len(),
            without_trailing_white_space(rest) == without_trailing_white_space(
                text@.subrange(start as int, end as int),
            ),
        decreases end - start,
    {
        assert(text@.subrange(start as int, end as int).drop_last() =~= text@.subrange(
            start as int,
            end - 1,
        ));
        end -= 1;
    }
    text.substring_char(start, end)
}

/// Removes a prefix from a text, if the text has it.
fn strip_prefix<'a>(text: &'a str, prefix: &str) -> (rest: Option<&'a str>)
    ensures
        match rest {
            Some(rest) => prefix@.is_prefix_of(text@) && rest@ == text@.skip(prefix@.len() as int),
            None => !prefix@.is_prefix_of(text@),
        },
{
    let text_len: usize = text.unicode_len();
    let prefix_len: usize = prefix.unicode_len();
    if prefix_len <= text_len && same_text(text.substring_char(0, prefix_len), prefix) {
        let rest = text.substring_char(prefix_len, text_len);
        assert(rest@ =~= text@.skip(prefix_len as int));
        Some(rest)
    } else {
        None
    }
}

/// Get the application SVG icon, ready to be embedded in HTML code, from the bytes that were found
/// in the resources of the application, if any.
pub fn svg_icon(bytes: Option<Vec<u8>>) -> (icon: Result<String, SvgIconError>)
    ensures
        ({
            let bytes = match bytes {
                Some(bytes) => Some(bytes@),
                None => None,
            };
            match icon {
                Ok(icon) => embedded_icon(bytes) == Ok::<Seq<char>, SvgIconError>(icon@),
                Err(error) => embedded_icon(bytes) == Err::<Seq<char>, SvgIconError>(error),
            }
        }),
{
    let bytes = match bytes {
        Some(bytes) => bytes,
        None => return Err(SvgIconError::NotFound),
    };

    // Convert the bytes to a string, since it should be SVG.
    let icon = match from_utf8(bytes) {
        Some(icon) => icon,
        None => return Err(SvgIconError::NotUtf8),
    };

    // Remove the XML prologue, to inline the SVG directly into the HTML.
    let stripped_icon = match strip_prefix(trim(icon.as_str()), XML_PROLOGUE) {
        Some(stripped_icon) => stripped_icon,
        None => return Err(SvgIconError::NoXmlPrologue),
    };

    // Wrap the SVG into a div that is hidden in the accessibility tree, since the icon is only
    // here for presentation purposes.
    let mut html = ICON_START.to_owned();
    html.append(stripped_icon);
    html.append(ICON_END);
    Ok(html)
}

/// The landing page, after the user performed the authentication and is redirected to the local
/// server, as HTML code.
///
/// The title and the message are `PAGE_TITLE` and `PAGE_MESSAGE` in the language of the user.
pub fn local_server_landing_page(
    app_name: &str,
    title: &str,
    message: &str,
    icon: Option<String>,
) -> (html: String)
    ensures
        html@ == landing_page_html(
            app_name@,
            title@,
            message@,
            match icon {
                Some(icon) => icon@,
                None => seq![],
            },
        ),
{
    let icon = match icon {
        Some(icon) => icon,
        None => String::new(),
    };
    let mut html = PAGE_START.to_owned();
    html.append(app_name);
    html.append(TITLE_SEPARATOR);
    html.append(title);
    html.append(BEFORE_STYLE);
    html.append(STYLE);
    html.append(BEFORE_ICON);
    html.append(icon.as_str());
    html.append(BEFORE_HEADING);
    html.append(title);
    html.append(BEFORE_MESSAGE);
    html.append(message);
    html.append(PAGE_END);
    html
}

/// A character is whitespace exactly if it is one of these.
pub proof fn white_space_characters(c: char)
    ensures
        is_white_space(c) <==> seq![
            0x9int,
            0xa,
            0xb,
            0xc,
            0xd,
            0x20,
            0x85,
            0xa0,
            0x1680,
            0x2000,
            0x2001,
            0x2002,
            0x2003,
            0x2004,
            0x2005,
            0x2006,
            0x2007,
            0x2008,
            0x2009,
            0x200a,
            0x2028,
            0x2029,
            0x202f,
            0x205f,
            0x3000,
        ].contains(c as int),
{
    let codes = seq![
        0x9int,
        0xa,
        0xb,
        0xc,
        0xd,
        0x20,
        0x85,
        0xa0,
        0x1680,
        0x2000,
        0x2001,
        0x2002,
        0x2003,
        0x2004,
        0x2005,
        0x2006,
        0x2007,
        0x2008,
        0x2009,
        0x200a,
        0x2028,
        0x2029,
        0x202f,
        0x205f,
        0x3000,
    ];
    if is_white_space(c) {
        let code = c as int;
        let i: int = if code <= 0xd {
            code - 0x9
        } else if code == 0x20 {
            5
        } else if code == 0x85 {
            6
        } else if code == 0xa0 {
            7
        } else if code == 0x1680 {
            8
        } else if code <= 0x200a {
            code - 0x2000 + 9
        } else if code == 0x2028 {
            20
        } else if code == 0x2029 {
            21
        } else if code == 0x202f {
            22
        } else if code == 0x205f {
            23
        } else {
            24
        };
        assert(codes[i] == code);
    }
}

/// Whether a text is whitespace and nothing else.
pub open spec fn is_blank(text: Seq<char>) -> bool {
    forall|i: int| 0 <= i < text.len() ==> is_white_space(#[trigger] text[i])
}

/// Trimming removes whitespace from both ends, as much as there is, and nothing else.
pub proof fn trimmed_between_white_space(before: Seq<char>, text: Seq<char>, after: Seq<char>)
    requires
        is_blank(before),
        is_blank(after),
        text.len() > 0 ==> !is_white_space(text.first()) && !is_white_space(text.last()),
    ensures
        trimmed(before + text + after) == text,
{
    lemma_leading(before, text + after);
    assert(before + text + after =~= before + (text + after));
    if text.len() == 0 {
        assert(text + after =~= after + text);
        lemma_leading(after, text);
        assert(without_trailing_white_space(text) == text);
    } else {
        assert((text + after).first() == text.first());
        assert(without_leading_white_space(text + after) == text + after);
        lemma_trailing(text, after);
        assert(without_trailing_white_space(text) == text);
    }
}

/// Leading whitespace is removed.
proof fn lemma_leading(before: Seq<char>, text: Seq<char>)
    requires
        is_blank(before),
    ensures
        without_leading_white_space(before + text) == without_leading_white_space(text),
    decreases before.len(),
{
    if before.len() == 0 {
        assert(before + text =~= text);
    } else {
        assert(is_white_space(before[0]));
        assert((before + text).first() == before[0]);
        assert((before + text).drop_first() =~= before.skip(1) + text);
        lemma_leading(before.skip(1), text);
    }
}

/// Trailing whitespace is removed.
proof fn lemma_trailing(text: Seq<char>, after: Seq<char>)
    requires
        is_blank(after),
    ensures
        without_trailing_white_space(text + after) == without_trailing_white_space(text),
    decreases after.len(),
{
    if after.len() == 0 {
        assert(text + after =~= text);
    } else {
        assert(is_white_space(after[after.len() - 1]));
        assert((text + after).last() == after[after.len() - 1]);
        assert((text + after).drop_last() =~= text + after.drop_last());
        lemma_trailing(text, after.drop_last());
    }
}

/// An icon with an XML prologue is embedded without the prologue, and without the whitespace around
/// both, whatever the icon is.
pub proof fn icon_with_prologue_is_embedded(
    bytes: Seq<u8>,
    before: Seq<char>,
    icon: Seq<char>,
    after: Seq<char>,
)
    requires
        valid_utf8(bytes),
        decode_utf8(bytes) == before + ("<?xml version=\"1.0\" encoding=\"UTF-8\"?>"@ + icon)
            + after,
        is_blank(before),
        is_blank(after),
        icon.len() > 0 ==> !is_white_space(icon.last()),
    ensures
        embedded_icon(Some(bytes)) == Ok::<Seq<char>, SvgIconError>(
            "<div aria-hidden=\"true\">"@ + icon + "</div>"@,
        ),
{
    reveal_strlit("<?xml version=\"1.0\" encoding=\"UTF-8\"?>");
    let prologue = "<?xml version=\"1.0\" encoding=\"UTF-8\"?>"@;
    let text = prologue + icon;
    assert(prologue.len() == 38);
    assert(text.first() == '<');
    assert(icon.len() == 0 ==> text.last() == '>');
    trimmed_between_white_space(before, text, after);
    assert(prologue.is_prefix_of(text));
    assert(text.skip(38) =~= icon);
}

/// An icon is only embedded if it was found, is valid UTF-8, and starts with the XML prologue after
/// any whitespace. Otherwise the first of these that does not hold is reported.
pub proof fn icon_without_prologue_is_refused(bytes: Option<Seq<u8>>)
    ensures
        ({
            let icon = embedded_icon(bytes);
            let found = bytes is Some;
            let valid = found && valid_utf8(bytes->0);
            &&& icon is Err && icon->Err_0 is NotFound <==> !found
            &&& icon is Err && icon->Err_0 is NotUtf8 <==> found && !valid
            &&& icon is Err && icon->Err_0 is NoXmlPrologue <==> valid
                && !"<?xml version=\"1.0\" encoding=\"UTF-8\"?>"@.is_prefix_of(
                trimmed(decode_utf8(bytes->0)),
            )
        }),
{
}

/// The page holds the name of the application, the title twice, the message and the icon, each as it
/// is, between texts that are always the same.
pub proof fn page_holds_its_texts(
    app_name: Seq<char>,
    title: Seq<char>,
    message: Seq<char>,
    icon: Seq<char>,
    html: Seq<char>,
)
    requires
        html == landing_page_html(app_name, title, message, icon),
    ensures
        ({
            let name_at = PAGE_START@.len() as int;
            let title_at = name_at + app_name.len() + TITLE_SEPARATOR@.len();
            let style_at = title_at + title.len() + BEFORE_STYLE@.len();
            let icon_at = style_at + STYLE@.len() + BEFORE_ICON@.len();
            let heading_at = icon_at + icon.len() + BEFORE_HEADING@.len();
            let message_at = heading_at + title.len() + BEFORE_MESSAGE@.len();
            let end_at = message_at + message.len();
            &&& html.len() == end_at + PAGE_END@.len()
            &&& html.subrange(0, name_at) == PAGE_START@
            &&& html.subrange(name_at, name_at + app_name.len()) == app_name
            &&& html.subrange(name_at + app_name.len(), title_at) == TITLE_SEPARATOR@
            &&& html.subrange(title_at, title_at + title.len()) == title
            &&& html.subrange(title_at + title.len(), style_at) == BEFORE_STYLE@
            &&& html.subrange(style_at, style_at + STYLE@.len()) == STYLE@
            &&& html.subrange(style_at + STYLE@.len(), icon_at) == BEFORE_ICON@
            &&& html.subrange(icon_at, icon_at + icon.len()) == icon
            &&& html.subrange(icon_at + icon.len(), heading_at) == BEFORE_HEADING@
            &&& html.subrange(heading_at, heading_at + title.len()) == title
            &&& html.subrange(heading_at + title.len(), message_at) == BEFORE_MESSAGE@
            &&& html.subrange(message_at, end_at) == message
            &&& html.subrange(end_at, html.len() as int) == PAGE_END@
        }),
{
}

} // verus!

use fractal::login::landing_page::{
    local_server_landing_page, svg_icon, SvgIconError, PAGE_MESSAGE, PAGE_TITLE,
};
use fractal::messages::Message;

fn expected_page(app_name: &str, title: &str, message: &str, icon: &str) -> String {
    let css = "
        /* Add support for light and dark schemes. */
        :root {
            color-scheme: light dark;
        }

        body {
            /* Make sure that the page takes all the visible height. */
            height: 100vh;

            /* Cancel default margin in some browsers. */
            margin: 0;

            /* Apply the same colors as libadwaita. */
            color: light-dark(RGB(0 0 6 / 80%), #ffffff);
            background-color: light-dark(#ffffff, #1d1d20);
        }

        .content {
            /* Center the content in the page. */
            display: flex;
            flex-direction: column;
            justify-content: center;
            align-items: center;
            text-align: center;

            /* It looks better if the content is not absolutely vertically
             * centered, so we cheat by reducing the height of the container.
             */
            height: 80%;

            /* Use the GNOME default font if possible.
             * Since Adwaita Sans is based on Inter, use it as a fallback.
             */
            font-family: \"Adwaita Sans\", Inter, sans-serif;

            /* Add padding to have space around the text when the window is
             * narrow.
             */
            padding: 12px;
        }
        ";
    let html = format!(
        "\
        <!doctype html>
        <html>
            <head>
                <meta charset=\"utf-8\">
                <title>{app_name} - {title}</title>
                <style>{css}</style>
            </head>
            <body>
                <div class=\"content\">
                    {icon}
                    <h1>{title}</h1>
                    <p>{message}</p>
                </div>
            </body>
        </html>
        "
    );

    html
}

#[test]
fn page_has_the_texts_and_the_icon() {
    assert_eq!(
        local_server_landing_page("App", "Done", "Go <b>back</b>.", Some("<svg/>".to_owned())),
        expected_page("App", "Done", "Go <b>back</b>.", "<svg/>")
    );
    assert_eq!(local_server_landing_page("", "", "", None), expected_page("", "", "", ""));
}

#[test]
fn messages_of_the_page() {
    assert_eq!(PAGE_TITLE, Message::AuthorizationCompleted);
    assert_eq!(PAGE_MESSAGE, Message::AuthorizationStepComplete);
}

fn icon(text: &str) -> Result<String, SvgIconError> {
    svg_icon(Some(text.as_bytes().to_vec()))
}

#[test]
fn icon_is_embedded_without_the_prologue() {
    assert_eq!(
        icon("<?xml version=\"1.0\" encoding=\"UTF-8\"?>\n<svg>é</svg>").unwrap(),
        "<div aria-hidden=\"true\">\n<svg>é</svg></div>"
    );
    assert_eq!(
        icon("<?xml version=\"1.0\" encoding=\"UTF-8\"?>").unwrap(),
        "<div aria-hidden=\"true\"></div>"
    );
}

#[test]
fn icon_is_trimmed() {
    assert_eq!(
        icon("\u{3000}\n\t <?xml version=\"1.0\" encoding=\"UTF-8\"?> <svg/> \r\n\u{a0}").unwrap(),
        "<div aria-hidden=\"true\"> <svg/></div>"
    );
}

#[test]
fn icon_is_trimmed_like_strings_are() {
    let prologue = "<?xml version=\"1.0\" encoding=\"UTF-8\"?>";
    for code in (0..0x3100).chain(0xfe00..0x10000) {
        if let Some(c) = char::from_u32(code) {
            let text = format!("{c}{prologue}x{c}");
            let expected = text
                .trim()
                .strip_prefix(prologue)
                .map(|rest| format!("<div aria-hidden=\"true\">{rest}</div>"));
            assert_eq!(icon(&text).ok(), expected);
        }
    }
}

#[test]
fn icon_that_cannot_be_embedded() {
    assert_eq!(svg_icon(None).unwrap_err(), SvgIconError::NotFound);
    assert_eq!(svg_icon(Some(vec![0xff, 0xfe])).unwrap_err(), SvgIconError::NotUtf8);
    for text in ["", "   ", "<svg/>", "<?xml version=\"1.0\"?><svg/>", "<?xml"] {
        assert_eq!(icon(text).unwrap_err(), SvgIconError::NoXmlPrologue);
    }
}

//! The request logic of the static-file server: which file a request asks
//! for, what to answer when it is missing, the content type of a file name,
//! the response text, and the configuration that names the index and
//! not-found pages. Reading sockets and files is left to the caller, which
//! hands the bytes and texts it read to these functions.
use crate::text::{
    ends_with, has_prefix, has_suffix, second_field, second_word, starts_with, str_eq,
};
use vstd::prelude::*;

verus! {

/// The content type served for a file name: by its extension, plain text
/// when the extension is not known.
pub open spec fn content_type_of(name: Seq<char>) -> Seq<char> {
    if has_suffix(name, ".css"@) {
        "text/css"@
    } else if has_suffix(name, ".html"@) {
        "text/html"@
    } else {
        "text/plain"@
    }
}

/// The content type of `filename`: `text/css`, `text/html` or `text/plain`.
pub fn check_content(filename: &String) -> (r: String)
    ensures
        r@ == content_type_of(filename@),
{
    if ends_with(filename.as_str(), ".css") {
        String::from_str("text/css")
    } else if ends_with(filename.as_str(), ".html") {
        String::from_str("text/html")
    } else {
        String::from_str("text/plain")
    }
}

/// Whether a raw request starts with the `GET` method.
pub fn is_get(buffer: &[u8]) -> (r: bool)
    ensures
        r == (buffer@.len() >= 3 && buffer@.subrange(0, 3) == seq![71u8, 69u8, 84u8]),
{
    if buffer.len() < 3 {
        return false;
    }
    let r = buffer[0] == 71u8 && buffer[1] == 69u8 && buffer[2] == 84u8;
    assert(r == (buffer@.subrange(0, 3) =~= seq![71u8, 69u8, 84u8]));
    r
}

/// The target of a request line: its second space-separated field, when
/// there is one and it is not empty.
pub open spec fn request_target(request: Seq<char>) -> Option<Seq<char>> {
    match second_field(request) {
        Some(w) => if w.len() > 0 {
            Some(w)
        } else {
            None
        },
        None => None,
    }
}

/// The path a request asks for; `None` when the request names none.
pub fn request_path(request: &str) -> (r: Option<String>)
    ensures
        match request_target(request@) {
            None => r is None,
            Some(w) => r is Some && r->0@ == w,
        },
{
    match second_word(request) {
        Some(w) => {
            if w.as_str().unicode_len() > 0 {
                Some(w)
            } else {
                None
            }
        },
        None => None,
    }
}

/// The status line, content type header, blank line and body of a response.
pub open spec fn response_text(status: Seq<char>, content_type: Seq<char>, body: Seq<char>) -> Seq<
    char,
> {
    "HTTP/1.1 "@ + status + "\r\nContent-Type: "@ + content_type + "\r\n\r\n"@ + body
}

/// A complete answer to a request.
pub struct Reply {
    pub status: String,
    pub content_type: String,
    pub body: String,
}

impl Reply {
    /// The response text that carries this reply.
    pub fn response(&self) -> (r: String)
        ensures
            r@ == response_text(self.status@, self.content_type@, self.body@),
    {
        let mut r = String::from_str("HTTP/1.1 ");
        r.append(self.status.as_str());
        r.append("\r\nContent-Type: ");
        r.append(self.content_type.as_str());
        r.append("\r\n\r\n");
        r.append(self.body.as_str());
        r
    }
}

/// What to answer: the contents of a file, or a reply known in advance.
pub enum Route {
    File { name: String, status: String, content_type: String },
    Fixed(Reply),
}

/// The page served at `/` when no index and no not-found page is configured.
pub open spec fn no_index_page() -> Seq<char> {
    "<!DOCTYPE html><html><body>No index file</body></html>"@
}

/// The page served for a missing file when no not-found page is configured.
pub open spec fn no_not_found_page() -> Seq<char> {
    "<!DOCTYPE html><html><body>No 404 file</body></html>"@
}

/// The names of the index and not-found pages; an empty name means none.
pub struct ConfigView {
    pub index: Seq<char>,
    pub error_404: Seq<char>,
}

/// The configuration after one more line: `index:` and `404:` lines set the
/// page named by their second field, and are malformed without one; any
/// other line changes nothing.
pub open spec fn config_step(acc: Option<ConfigView>, line: Seq<char>) -> Option<ConfigView> {
    match acc {
        None => None,
        Some(c) => if has_prefix(line, "index:"@) {
            match second_field(line) {
                Some(w) => Some(ConfigView { index: w, ..c }),
                None => None,
            }
        } else if has_prefix(line, "404:"@) {
            match second_field(line) {
                Some(w) => Some(ConfigView { error_404: w, ..c }),
                None => None,
            }
        } else {
            Some(c)
        },
    }
}

/// The configuration named by `lines`, read in order, later lines winning;
/// `None` when a directive line lacks its value.
pub open spec fn config_of(lines: Seq<Seq<char>>) -> Option<ConfigView>
    decreases lines.len(),
{
    if lines.len() == 0 {
        Some(ConfigView { index: Seq::empty(), error_404: Seq::empty() })
    } else {
        config_step(config_of(lines.drop_last()), lines.last())
    }
}

/// A line of a configuration file that is neither a directive, a comment
/// nor empty.
pub open spec fn is_stray(line: Seq<char>) -> bool {
    !has_prefix(line, "index:"@) && !has_prefix(line, "404:"@) && !has_prefix(line, "#"@)
        && line.len() > 0
}

/// Whether a configuration line is one that is not understood.
pub fn is_stray_line(line: &str) -> (r: bool)
    ensures
        r == is_stray(line@),
{
    !starts_with(line, "index:") && !starts_with(line, "404:") && !starts_with(line, "#")
        && line.unicode_len() > 0
}

/// The pages a server answers with, as its configuration names them.
pub struct Parse {
    index: String,
    error_404: String,
    has_index: bool,
    has_error: bool,
}

impl Parse {
    /// The configured index page name, empty when none is configured.
    pub closed spec fn index(&self) -> Seq<char> {
        self.index@
    }

    /// The configured not-found page name, empty when none is configured.
    pub closed spec fn error_404(&self) -> Seq<char> {
        self.error_404@
    }

    pub closed spec fn has_index(&self) -> bool {
        self.has_index
    }

    pub closed spec fn has_error(&self) -> bool {
        self.has_error
    }

    /// An index or not-found page is present exactly when it has a name.
    pub open spec fn wf(&self) -> bool {
        &&& self.has_index() == (self.index().len() > 0)
        &&& self.has_error() == (self.error_404().len() > 0)
    }

    /// Reads a configuration from its lines. `None` when an `index:` or
    /// `404:` line has no second field.
    pub fn new(lines: &Vec<String>) -> (r: Option<Parse>)
        ensures
            match config_of(lines@.map_values(|l: String| l@)) {
                None => r is None,
                Some(c) => r is Some && r->0.wf() && r->0.index() == c.index && r->0.error_404()
                    == c.error_404,
            },
    {
        let ghost views = lines@.map_values(|l: String| l@);
        let mut index = String::new();
        let mut error_404 = String::new();
        let mut i: usize = 0;
        while i < lines.len()
            invariant
                i <= lines@.len(),
                views == lines@.map_values(|l: String| l@),
                config_of(views.subrange(0, i as int)) == Some(
                    ConfigView { index: index@, error_404: error_404@ },
                ),
            decreases lines.len() - i,
        {
            let line = lines[i].as_str();
            assert(views.subrange(0, i + 1).drop_last() =~= views.subrange(0, i as int));
            assert(views.subrange(0, i + 1).last() == line@);
            if starts_with(line, "index:") {
                match second_word(line) {
                    Some(w) => {
                        index = w;
                    },
                    None => {
                        proof {
                            lemma_config_fails_on(views, i as int + 1);
                        }
                        assert(views.subrange(0, lines@.len() as int) =~= views);
                        return None;
                    },
                }
            } else if starts_with(line, "404:") {
                match second_word(line) {
                    Some(w) => {
                        error_404 = w;
                    },
                    None => {
                        proof {
                            lemma_config_fails_on(views, i as int + 1);
                        }
                        assert(views.subrange(0, lines@.len() as int) =~= views);
                        return None;
                    },
                }
            }
            i = i + 1;
        }
        assert(views.subrange(0, lines@.len() as int) =~= views);
        let has_index = index.as_str().unicode_len() > 0;
        let has_error = error_404.as_str().unicode_len() > 0;
        Some(Parse { index, error_404, has_index, has_error })
    }

    /// The file to serve for `path`, or the built-in page for `/` when
    /// neither an index nor a not-found page is configured. `/` names the
    /// index page (a default name when none is configured); any other path
    /// names a file, relative, without its leading character.
    pub fn route(&self, path: &str) -> (r: Route)
        requires
            self.wf(),
            path@.len() > 0,
        ensures
            path@ == "/"@ && !self.has_index() && !self.has_error() ==> r is Fixed
                && r->Fixed_0.status@ == "200 OK"@ && r->Fixed_0.content_type@ == "text/html"@
                && r->Fixed_0.body@ == no_index_page(),
            path@ == "/"@ && (self.has_index() || self.has_error()) ==> r is File && r->name@ == (
            if self.has_index() {
                self.index()
            } else {
                "dummy.html"@
            }) && r->File_status@ == "200 OK"@ && r->File_content_type@ == content_type_of(
                r->name@,
            ),
            path@ != "/"@ ==> r is File && r->name@ == path@.drop_first() && r->File_status@
                == "200 OK"@ && r->File_content_type@ == content_type_of(r->name@),
    {
        if str_eq(path, "/") {
            if !self.has_index && !self.has_error {
                proof {
                    reveal_strlit("dummy.html");
                    reveal_strlit(".css");
                    reveal_strlit(".html");
                }
                Route::Fixed(
                    Reply {
                        status: String::from_str("200 OK"),
                        content_type: String::from_str("text/html"),
                        body: String::from_str(
                            "<!DOCTYPE html><html><body>No index file</body></html>",
                        ),
                    },
                )
            } else {
                let name = if self.has_index {
                    self.index.clone()
                } else {
                    String::from_str("dummy.html")
                };
                let content_type = check_content(&name);
                Route::File { name, status: String::from_str("200 OK"), content_type }
            }
        } else {
            let n = path.unicode_len();
            let name = path.substring_char(1, n).to_owned();
            assert(name@ =~= path@.drop_first());
            let content_type = check_content(&name);
            Route::File { name, status: String::from_str("200 OK"), content_type }
        }
    }

    /// What to answer when the file a request names cannot be read: the
    /// not-found page if one is configured, else a built-in page, both with
    /// status `404 NOT FOUND` as HTML.
    pub fn missing(&self) -> (r: Route)
        requires
            self.wf(),
        ensures
            self.has_error() ==> r is File && r->name@ == self.error_404() && r->File_status@
                == "404 NOT FOUND"@ && r->File_content_type@ == "text/html"@,
            !self.has_error() ==> r is Fixed && r->Fixed_0.status@ == "404 NOT FOUND"@
                && r->Fixed_0.content_type@ == "text/html"@ && r->Fixed_0.body@
                == no_not_found_page(),
    {
        if self.has_error {
            Route::File {
                name: self.error_404.clone(),
                status: String::from_str("404 NOT FOUND"),
                content_type: String::from_str("text/html"),
            }
        } else {
            Route::Fixed(
                Reply {
                    status: String::from_str("404 NOT FOUND"),
                    content_type: String::from_str("text/html"),
                    body: String::from_str("<!DOCTYPE html><html><body>No 404 file</body></html>"),
                },
            )
        }
    }

    /// A copy of this configuration, for a handler on another thread.
    pub fn make_copy(&self) -> (r: Parse)
        ensures
            r.index() == self.index(),
            r.error_404() == self.error_404(),
            r.has_index() == self.has_index(),
            r.has_error() == self.has_error(),
    {
        Parse {
            index: self.index.clone(),
            error_404: self.error_404.clone(),
            has_index: self.has_index,
            has_error: self.has_error,
        }
    }

    /// Whether an index page is configured.
    pub fn index_configured(&self) -> (r: bool)
        ensures
            r == self.has_index(),
    {
        self.has_index
    }

    /// Whether a not-found page is configured.
    pub fn not_found_configured(&self) -> (r: bool)
        ensures
            r == self.has_error(),
    {
        self.has_error
    }
}

/// Once a prefix of the lines is malformed, the whole configuration is.
pub proof fn lemma_config_fails_on(lines: Seq<Seq<char>>, n: int)
    requires
        0 <= n <= lines.len(),
        config_of(lines.subrange(0, n)) is None,
    ensures
        config_of(lines) is None,
    decreases lines.len() - n,
{
    if n < lines.len() {
        assert(lines.subrange(0, n + 1).drop_last() =~= lines.subrange(0, n));
        lemma_config_fails_on(lines, n + 1);
    } else {
        assert(lines.subrange(0, n) =~= lines);
    }
}

} // verus!

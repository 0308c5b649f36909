//! The formats in which results are written, and where they are written to.

use crate::text::same_text;
use std::str::FromStr;
use vstd::prelude::*;

verus! {

/// A format in which results are written.
#[derive(Debug, Clone, Copy, PartialEq, Eq, Structural)]
pub enum Format {
    Cbor,
    Json,
    Toml,
    Yaml,
}

/// How a value is turned into bytes.
#[derive(Debug, Clone, Copy, PartialEq, Eq, Structural)]
pub enum Encoding {
    Cbor,
    Json,
    JsonPretty,
    Toml,
    TomlPretty,
    Yaml,
}

/// Why results cannot be written as asked.
#[derive(Debug, Clone, Copy, PartialEq, Eq, Structural)]
pub enum DumpError {
    /// Cbor is a binary format and is written to files only.
    CborToStdout,
}

/// Where results go, and how they are encoded on the way.
#[derive(Debug, Clone)]
pub enum Dump {
    /// To standard output, followed by a line break.
    Print { encoding: Encoding },
    /// To the file of this name in the output directory.
    Write { file_name: String, encoding: Encoding },
}

/// The text that `{:?}` makes of a string: the string between double quotes,
/// with the characters that need it escaped.
pub uninterp spec fn debug_text(text: Seq<char>) -> Seq<char>;

/// `String::push` of std appends the given char to the end of the string.
pub assume_specification[ std::string::String::push ](text: &mut std::string::String, c: char)
    ensures
        final(text)@ == old(text)@.push(c),
;

/// `String::push_str` of std appends the given string slice onto the end of
/// the string.
pub assume_specification[ std::string::String::push_str ](
    text: &mut std::string::String,
    more: &str,
)
    ensures
        final(text)@ == old(text)@ + more@,
;

/// Formats `text` with `{:?}`, that is with the impl of `Debug` that std has
/// for `str`. The result depends on `text` alone and is given a name.
#[verifier::external_body]
fn debug_quoted(text: &str) -> (quoted: String)
    ensures
        quoted@ == debug_text(text@),
{
    format!("{:?}", text)
}

/// The pieces that the separators `/` cut `path` into. A path without a
/// separator is one piece, and a separator at either end leaves an empty piece
/// there.
pub open spec fn pieces(path: Seq<char>) -> Seq<Seq<char>>
    decreases path.len(),
{
    if path.len() == 0 {
        seq![Seq::empty()]
    } else {
        let before = pieces(path.drop_last());
        if path.last() == '/' {
            before.push(Seq::empty())
        } else {
            before.drop_last().push(before.last().push(path.last()))
        }
    }
}

/// What a piece of a path gives to a file name. An empty piece and the piece
/// `.`, which name no step of the path, give nothing; the piece `..` gives an
/// underscore; every other piece gives itself.
pub open spec fn segment(piece: Seq<char>) -> Option<Seq<char>> {
    if piece.len() == 0 || piece == seq!['.'] {
        None
    } else if piece == seq!['.', '.'] {
        Some(seq!['_'])
    } else {
        Some(piece)
    }
}

/// What the pieces of a path give to a file name, piece by piece.
pub open spec fn segments(pieces: Seq<Seq<char>>) -> Seq<Seq<char>> {
    pieces.filter_map(|piece: Seq<char>| segment(piece))
}

/// The segments written one after the other with an underscore between each
/// two.
pub open spec fn joined(segments: Seq<Seq<char>>) -> Seq<char>
    decreases segments.len(),
{
    if segments.len() == 0 {
        Seq::empty()
    } else if segments.len() == 1 {
        segments[0]
    } else {
        joined(segments.drop_last()) + seq!['_'] + segments.last()
    }
}

/// The name of the file that holds the results for the source file at `path`:
/// the steps of the path joined by underscores, each step back to a parent
/// directory written as an underscore, then the extension. A separator at the
/// start of the path, a `./` there, and separators that follow one another
/// leave no trace in the name.
pub open spec fn file_name(path: Seq<char>, extension: Seq<char>) -> Seq<char> {
    joined(segments(pieces(path))) + extension
}

/// What one more piece gives to a file name comes after what the pieces
/// before it give.
proof fn lemma_segments_push(before: Seq<Seq<char>>, piece: Seq<char>)
    ensures
        segments(before.push(piece)) == match segment(piece) {
            Some(s) => segments(before).push(s),
            None => segments(before),
        },
{
    assert(before.push(piece).drop_last() =~= before);
    assert(segments(before) + seq![piece] =~= segments(before).push(piece));
    match segment(piece) {
        Some(s) => {
            assert(segments(before) + seq![s] =~= segments(before).push(s));
        },
        None => {},
    }
}

/// One more segment is written after the segments before it, and after an
/// underscore where there are any.
proof fn lemma_joined_push(before: Seq<Seq<char>>, s: Seq<char>)
    ensures
        joined(before.push(s)) == if before.len() == 0 {
            s
        } else {
            joined(before) + seq!['_'] + s
        },
{
    assert(before.push(s).drop_last() =~= before);
}

/// Ends a piece of a path: writes what it gives to the file name, after an
/// underscore if the name has a segment already.
fn close_piece(name: &mut String, written: &mut bool, piece: &Vec<char>)
    ensures
        match segment(piece@) {
            Some(s) => {
                &&& *final(written)
                &&& final(name)@ == if *old(written) {
                    old(name)@ + seq!['_'] + s
                } else {
                    old(name)@ + s
                }
            },
            None => *final(written) == *old(written) && final(name)@ == old(name)@,
        },
{
    let n = piece.len();
    if n == 0 || (n == 1 && piece[0] == '.') {
        assert(n == 1 && piece@[0] == '.' ==> piece@ =~= seq!['.']);
        return ;
    }
    assert(piece@ != seq!['.']);
    if *written {
        name.push('_');
    }
    let ghost start = name@;
    if n == 2 && piece[0] == '.' && piece[1] == '.' {
        assert(piece@ =~= seq!['.', '.']);
        name.push('_');
        assert(name@ =~= start + seq!['_']);
    } else {
        assert(piece@ != seq!['.', '.']);
        let mut i: usize = 0;
        while i < n
            invariant
                0 <= i <= n,
                n == piece@.len(),
                name@ == start + piece@.take(i as int),
            decreases n - i,
        {
            name.push(piece[i]);
            assert(piece@.take(i + 1) =~= piece@.take(i as int).push(piece@[i as int]));
            i += 1;
        }
        assert(piece@.take(n as int) =~= piece@);
    }
    *written = true;
}

impl Format {
    /// The name by which a format is chosen.
    pub open spec fn name(self) -> Seq<char> {
        match self {
            Format::Cbor => "cbor"@,
            Format::Json => "json"@,
            Format::Toml => "toml"@,
            Format::Yaml => "yaml"@,
        }
    }

    /// The format that goes by `name`, if there is one.
    pub open spec fn named(name: Seq<char>) -> Option<Format> {
        if name == "cbor"@ {
            Some(Format::Cbor)
        } else if name == "json"@ {
            Some(Format::Json)
        } else if name == "toml"@ {
            Some(Format::Toml)
        } else if name == "yaml"@ {
            Some(Format::Yaml)
        } else {
            None
        }
    }

    /// What is said of a name that no format goes by.
    pub open spec fn unsupported(name: Seq<char>) -> Seq<char> {
        debug_text(name) + " is not a supported format"@
    }

    /// The ending of the files in this format.
    pub open spec fn ending(self) -> Seq<char> {
        match self {
            Format::Cbor => ".cbor"@,
            Format::Json => ".json"@,
            Format::Toml => ".toml"@,
            Format::Yaml => ".yml"@,
        }
    }

    /// How values are encoded in this format, pretty where that is asked for
    /// and the format has a pretty form.
    pub open spec fn encoded(self, pretty: bool) -> Encoding {
        match self {
            Format::Cbor => Encoding::Cbor,
            Format::Json => if pretty {
                Encoding::JsonPretty
            } else {
                Encoding::Json
            },
            Format::Toml => if pretty {
                Encoding::TomlPretty
            } else {
                Encoding::Toml
            },
            Format::Yaml => Encoding::Yaml,
        }
    }

    /// The names of all formats.
    pub fn all() -> (names: &'static [&'static str])
        ensures
            names@.len() == 4,
            names@[0]@ == Format::Cbor.name(),
            names@[1]@ == Format::Json.name(),
            names@[2]@ == Format::Toml.name(),
            names@[3]@ == Format::Yaml.name(),
    {
        &["cbor", "json", "toml", "yaml"]
    }

    /// The format that goes by the name `format`, or a message that says that
    /// there is none.
    pub fn from_str(format: &str) -> (parsed: Result<Format, String>)
        ensures
            match parsed {
                Ok(found) => Format::named(format@) == Some(found),
                Err(message) => Format::named(format@) is None && message@ == Format::unsupported(
                    format@,
                ),
            },
    {
        if same_text(format, "cbor") {
            Ok(Format::Cbor)
        } else if same_text(format, "json") {
            Ok(Format::Json)
        } else if same_text(format, "toml") {
            Ok(Format::Toml)
        } else if same_text(format, "yaml") {
            Ok(Format::Yaml)
        } else {
            Err(Format::not_supported(debug_quoted(format)))
        }
    }

    /// What is said of a name that no format goes by, given the name as it is
    /// written between quotes.
    pub fn not_supported(quoted: String) -> (message: String)
        ensures
            message@ == quoted@ + " is not a supported format"@,
    {
        let mut message = quoted;
        message.push_str(" is not a supported format");
        message
    }
}

impl Format {
    /// The ending of the files in this format.
    pub fn extension(&self) -> (ending: &'static str)
        ensures
            ending@ == self.ending(),
    {
        match self {
            Format::Cbor => ".cbor",
            Format::Json => ".json",
            Format::Toml => ".toml",
            Format::Yaml => ".yml",
        }
    }

    /// How values are encoded in this format.
    pub fn encoding(&self, pretty: bool) -> (encoding: Encoding)
        ensures
            encoding == self.encoded(pretty),
    {
        match self {
            Format::Cbor => Encoding::Cbor,
            Format::Json => if pretty {
                Encoding::JsonPretty
            } else {
                Encoding::Json
            },
            Format::Toml => if pretty {
                Encoding::TomlPretty
            } else {
                Encoding::Toml
            },
            Format::Yaml => Encoding::Yaml,
        }
    }

    /// The name of the file, in the output directory, that holds the results
    /// for the source file at `path`.
    pub fn output_name(&self, path: &str) -> (name: String)
        ensures
            name@ == file_name(path@, self.ending()),
    {
        let mut name = String::new();
        let mut written = false;
        let mut piece: Vec<char> = Vec::new();
        let mut chars = path.chars();
        let ghost mut read: Seq<char> = Seq::empty();
        proof {
            broadcast use vstd::string::axiom_spec_iter;

            assert(path@.take(0) =~= read);
            assert(segments(Seq::<Seq<char>>::empty()) =~= Seq::<Seq<char>>::empty());
            assert(pieces(read).drop_last() =~= Seq::<Seq<char>>::empty());
        }
        loop
            invariant
                vstd::std_specs::iter::IteratorSpec::obeys_prophetic_iter_laws(&chars),
                vstd::std_specs::iter::IteratorSpec::decrease(&chars) is Some,
                read + vstd::std_specs::iter::IteratorSpec::remaining(&chars) == path@,
                piece@ == pieces(read).last(),
                pieces(read).len() >= 1,
                name@ == joined(segments(pieces(read).drop_last())),
                written == (segments(pieces(read).drop_last()).len() > 0),
            ensures
                vstd::std_specs::iter::IteratorSpec::remaining(&chars).len() == 0,
                read == path@,
            decreases vstd::std_specs::iter::IteratorSpec::decrease(&chars)->0,
        {
            let ghost before = chars;
            let next = chars.next();
            proof {
                vstd::string::next_postcondition(&before, &chars, next);
            }
            match next {
                Some(c) => {
                    let ghost done = pieces(read).drop_last();
                    let ghost open = pieces(read).last();
                    proof {
                        assert(read.push(c).drop_last() =~= read);
                        assert(read.push(c) + vstd::std_specs::iter::IteratorSpec::remaining(&chars) =~= path@);
                    }
                    if c == '/' {
                        close_piece(&mut name, &mut written, &piece);
                        piece = Vec::new();
                        proof {
                            assert(pieces(read.push(c)) == pieces(read).push(Seq::empty()));
                            assert(pieces(read.push(c)).drop_last() =~= pieces(read));
                            assert(pieces(read) =~= done.push(open));
                            lemma_segments_push(done, open);
                            match segment(open) {
                                Some(s) => {
                                    lemma_joined_push(segments(done), s);
                                    lemma_segments_nonempty(done);
                                    lemma_joined_nonempty(segments(done));
                                },
                                None => {},
                            }
                        }
                    } else {
                        piece.push(c);
                        proof {
                            assert(pieces(read.push(c)) == done.push(open.push(c)));
                            assert(pieces(read.push(c)).drop_last() =~= done);
                        }
                    }
                    proof {
                        read = read.push(c);
                    }
                },
                None => {
                    proof {
                        assert(read + vstd::std_specs::iter::IteratorSpec::remaining(&chars) =~= read);
                    }
                    break ;
                },
            }
        }
        let ghost done = pieces(read).drop_last();
        let ghost open = pieces(read).last();
        close_piece(&mut name, &mut written, &piece);
        proof {
            assert(pieces(read) =~= done.push(open));
            lemma_segments_push(done, open);
            match segment(open) {
                Some(s) => {
                    lemma_joined_push(segments(done), s);
                    lemma_segments_nonempty(done);
                    lemma_joined_nonempty(segments(done));
                },
                None => {},
            }
        }
        name.push_str(self.extension());
        name
    }

    /// Where results go, and how they are encoded. With `source`, the path of
    /// the source file that the results are for, they go into the file of the
    /// output directory that is named after it; without, to standard output.
    /// Cbor is not printed.
    pub fn dump(&self, source: Option<&str>, pretty: bool) -> (plan: Result<Dump, DumpError>)
        ensures
            match plan {
                Ok(Dump::Print { encoding }) => {
                    &&& source is None
                    &&& *self != Format::Cbor
                    &&& encoding == self.encoded(pretty)
                },
                Ok(Dump::Write { file_name: name, encoding }) => {
                    &&& source matches Some(path)
                    &&& name@ == file_name(path@, self.ending())
                    &&& encoding == self.encoded(pretty)
                },
                Err(DumpError::CborToStdout) => source is None && *self == Format::Cbor,
            },
    {
        match source {
            Some(path) => Ok(
                Dump::Write { file_name: self.output_name(path), encoding: self.encoding(pretty) },
            ),
            None => match self {
                Format::Cbor => Err(DumpError::CborToStdout),
                _ => Ok(Dump::Print { encoding: self.encoding(pretty) }),
            },
        }
    }
}

impl DumpError {
    /// What is said of the error.
    pub fn message(&self) -> (text: &'static str)
        ensures
            text@ == "Cbor format cannot be printed to stdout"@,
    {
        match self {
            DumpError::CborToStdout => "Cbor format cannot be printed to stdout",
        }
    }
}

/// A path without a separator is one piece.
proof fn lemma_pieces_whole(head: Seq<char>)
    requires
        !head.contains('/'),
    ensures
        pieces(head) == seq![head],
    decreases head.len(),
{
    if head.len() > 0 {
        let front = head.drop_last();
        assert forall|i: int| 0 <= i < front.len() implies front[i] != '/' by {
            assert(head[i] == front[i]);
            assert(head.contains(head[i]));
        }
        assert(head.contains(head.last()));
        lemma_pieces_whole(front);
        assert(seq![front].drop_last().push(front.push(head.last())) =~= seq![front.push(
            head.last(),
        )]);
        assert(front.push(head.last()) =~= head);
    } else {
        assert(head =~= Seq::<char>::empty());
    }
}

/// The first separator of a path cuts off its first piece: the pieces of the
/// path are that piece and the pieces of what follows the separator.
proof fn lemma_pieces_cut(head: Seq<char>, tail: Seq<char>)
    requires
        !head.contains('/'),
    ensures
        pieces(head + seq!['/'] + tail) == seq![head] + pieces(tail),
    decreases tail.len(),
{
    let path = head + seq!['/'] + tail;
    if tail.len() == 0 {
        assert(path.drop_last() =~= head);
        lemma_pieces_whole(head);
        assert(pieces(path) =~= seq![head] + pieces(tail));
    } else {
        let front = tail.drop_last();
        lemma_pieces_cut(head, front);
        assert(path.drop_last() =~= head + seq!['/'] + front);
        assert(path.last() == tail.last());
        lemma_pieces_some(front);
        let before = seq![head] + pieces(front);
        if tail.last() == '/' {
            assert(before.push(Seq::empty()) =~= seq![head] + pieces(front).push(Seq::empty()));
        } else {
            assert(before.last() == pieces(front).last());
            assert(before.drop_last() =~= seq![head] + pieces(front).drop_last());
            assert(before.drop_last().push(before.last().push(tail.last())) =~= seq![head]
                + pieces(front).drop_last().push(pieces(front).last().push(tail.last())));
        }
    }
}

/// Every path has a piece.
proof fn lemma_pieces_some(path: Seq<char>)
    ensures
        pieces(path).len() >= 1,
    decreases path.len(),
{
    if path.len() > 0 {
        lemma_pieces_some(path.drop_last());
    }
}

/// What pieces give to a file name, they give one after the other.
proof fn lemma_segments_add(a: Seq<Seq<char>>, b: Seq<Seq<char>>)
    ensures
        segments(a + b) == segments(a) + segments(b),
    decreases b.len(),
{
    if b.len() == 0 {
        assert(a + b =~= a);
        assert(segments(b) =~= Seq::<Seq<char>>::empty());
        assert(segments(a) + segments(b) =~= segments(a));
    } else {
        let front = b.drop_last();
        lemma_segments_add(a, front);
        assert(a + b =~= (a + front).push(b.last()));
        assert(b =~= front.push(b.last()));
        lemma_segments_push(a + front, b.last());
        lemma_segments_push(front, b.last());
        match segment(b.last()) {
            Some(s) => {
                assert((segments(a) + segments(front)).push(s) =~= segments(a) + segments(
                    front,
                ).push(s));
            },
            None => {},
        }
    }
}

/// The first piece of a path, where it gives nothing to the file name, can be
/// struck from the path together with the separator that ends it.
proof fn lemma_idle_piece_dropped(head: Seq<char>, path: Seq<char>, ending: Seq<char>)
    requires
        !head.contains('/'),
        segment(head) is None,
    ensures
        file_name(head + seq!['/'] + path, ending) == file_name(path, ending),
{
    lemma_pieces_cut(head, path);
    lemma_segments_add(seq![head], pieces(path));
    lemma_segments_push(Seq::empty(), head);
    assert(Seq::<Seq<char>>::empty().push(head) =~= seq![head]);
    assert(segments(Seq::<Seq<char>>::empty()) =~= Seq::<Seq<char>>::empty());
    assert(segments(seq![head]) + segments(pieces(path)) =~= segments(pieces(path)));
}

/// A separator at the start of a path leaves no trace in the file name: the
/// root of an absolute path is dropped.
pub proof fn lemma_root_dropped(path: Seq<char>, ending: Seq<char>)
    ensures
        file_name(seq!['/'] + path, ending) == file_name(path, ending),
{
    let head = Seq::<char>::empty();
    assert(head + seq!['/'] + path =~= seq!['/'] + path);
    lemma_idle_piece_dropped(head, path, ending);
}

/// A `./` at the start of a path leaves no trace in the file name.
pub proof fn lemma_current_directory_dropped(path: Seq<char>, ending: Seq<char>)
    ensures
        file_name(seq!['.', '/'] + path, ending) == file_name(path, ending),
{
    let head = seq!['.'];
    assert(head + seq!['/'] + path =~= seq!['.', '/'] + path);
    assert(!head.contains('/')) by {
        if head.contains('/') {
            let i = choose|i: int| 0 <= i < head.len() && head[i] == '/';
            assert(head[i] == '.');
        }
    }
    lemma_idle_piece_dropped(head, path, ending);
}

/// No piece of a path gives an empty segment to a file name.
proof fn lemma_segments_nonempty(pieces: Seq<Seq<char>>)
    ensures
        forall|i: int| 0 <= i < segments(pieces).len() ==> (#[trigger] segments(pieces)[i]).len() > 0,
    decreases pieces.len(),
{
    if pieces.len() > 0 {
        let before = pieces.drop_last();
        lemma_segments_nonempty(before);
        assert(pieces =~= before.push(pieces.last()));
        lemma_segments_push(before, pieces.last());
    }
}

/// A name that is joined from segments, none of them empty, is empty only where
/// there is no segment.
proof fn lemma_joined_nonempty(segments: Seq<Seq<char>>)
    requires
        forall|i: int| 0 <= i < segments.len() ==> (#[trigger] segments[i]).len() > 0,
    ensures
        joined(segments).len() == 0 <==> segments.len() == 0,
    decreases segments.len(),
{
}

impl FromStr for Format {
    type Err = String;

    /// The format that goes by the name `format`, or a message that says that
    /// there is none: what parsing a string as a format gives.
    fn from_str(format: &str) -> (parsed: Result<Self, Self::Err>)
        ensures
            match parsed {
                Ok(found) => Format::named(format@) == Some(found),
                Err(message) => Format::named(format@) is None && message@ == Format::unsupported(
                    format@,
                ),
            },
    {
        Format::from_str(format)
    }
}

} // verus!

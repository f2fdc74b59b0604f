use crate::command::{read_text_field, read_u64_field, text_field, u64_field, Command};
use crate::error::Error;
use crate::json::ObjectView;
use crate::packet::command_response::{CommandResponsePacket, CommandResponseView};
use crate::text::{
    chars_of, decimal, decimal_text, find_char, find_char_in, find_pair, find_pair_in, slice_text,
};
use vstd::prelude::*;

verus! {

/// One argument in the grammar of a command.
#[derive(Clone, Debug, PartialEq)]
pub enum BedrockCommandArgument {
    /// A word to be written as it stands.
    Literal,
    /// An argument that may be left out, with the name of its type.
    Optional(String),
    /// An argument that must be given, with the name of its type.
    Required(String),
}

/// The mathematical value of a `BedrockCommandArgument`.
pub enum ArgumentView {
    Literal,
    Optional(Seq<char>),
    Required(Seq<char>),
}

impl View for BedrockCommandArgument {
    type V = ArgumentView;

    open spec fn view(&self) -> ArgumentView {
        match self {
            BedrockCommandArgument::Literal => ArgumentView::Literal,
            BedrockCommandArgument::Optional(kind) => ArgumentView::Optional(kind@),
            BedrockCommandArgument::Required(kind) => ArgumentView::Required(kind@),
        }
    }
}

/// One line of the grammar of a command: the command's name and its
/// arguments by their keys. The arguments are kept in the order they were
/// read; where a key was read more than once, the last entry is the one that
/// counts.
#[derive(Clone, Debug, PartialEq)]
pub struct BedrockCommandSchema {
    pub name: String,
    pub arguments: Vec<(String, BedrockCommandArgument)>,
}

/// The mathematical value of a `BedrockCommandSchema`.
pub struct SchemaView {
    pub name: Seq<char>,
    pub arguments: Map<Seq<char>, ArgumentView>,
}

/// The entries of an argument list as mathematical values.
pub open spec fn entries_view(entries: Seq<(String, BedrockCommandArgument)>) -> Seq<
    (Seq<char>, ArgumentView),
> {
    Seq::new(entries.len(), |i: int| (entries[i].0@, entries[i].1@))
}

/// The map that a list of entries stands for: each key with the argument of
/// its last entry.
pub open spec fn map_of(entries: Seq<(Seq<char>, ArgumentView)>) -> Map<Seq<char>, ArgumentView>
    decreases entries.len(),
{
    if entries.len() == 0 {
        Map::empty()
    } else {
        map_of(entries.drop_last()).insert(entries.last().0, entries.last().1)
    }
}

impl View for BedrockCommandSchema {
    type V = SchemaView;

    open spec fn view(&self) -> SchemaView {
        SchemaView { name: self.name@, arguments: map_of(entries_view(self.arguments@)) }
    }
}

/// The bracket that closes a typed argument opened by `<` or `[`.
pub open spec fn closing(open: char) -> char {
    if open == '<' {
        '>'
    } else {
        ']'
    }
}

/// The argument that a typed entry stands for: required in `<>`, optional
/// in `[]`.
pub open spec fn typed(open: char, kind: Seq<char>) -> ArgumentView {
    if open == '<' {
        ArgumentView::Required(kind)
    } else {
        ArgumentView::Optional(kind)
    }
}

/// The smaller of a position and the length of a text.
pub open spec fn capped(position: int, length: int) -> int {
    if position < length {
        position
    } else {
        length
    }
}

/// The entries written in an argument text from a position on, or nothing
/// where a typed argument lacks the `": "` between its key and its type.
///
/// A typed argument runs from `<` to `>`, or from `[` to `]`, and holds a
/// key, `": "` and a type; the character after its closing bracket is
/// passed over. Any other word runs up to the next space and is a literal
/// whose key is the word.
pub open spec fn parse_arguments(s: Seq<char>, pos: int) -> Option<Seq<(Seq<char>, ArgumentView)>>
    decreases s.len() - pos,
{
    if pos < 0 || pos >= s.len() {
        Some(Seq::empty())
    } else if s[pos] == '<' || s[pos] == '[' {
        let stop = find_char(s, closing(s[pos]), pos + 1);
        let colon = find_pair(s, ':', ' ', pos + 1, stop);
        if colon >= stop {
            None
        } else {
            let entry = (s.subrange(pos + 1, colon), typed(s[pos], s.subrange(colon + 2, stop)));
            match parse_arguments(s, capped(stop + 2, s.len() as int)) {
                None => None,
                Some(rest) => Some(seq![entry] + rest),
            }
        }
    } else {
        let stop = find_char(s, ' ', pos + 1);
        let entry = (s.subrange(pos, stop), ArgumentView::Literal);
        match parse_arguments(s, capped(stop + 1, s.len() as int)) {
            None => None,
            Some(rest) => Some(seq![entry] + rest),
        }
    }
}

/// The schema that a grammar line holds, if it is one: a first character
/// of one byte, the command's name up to the first space, then the
/// arguments.
pub open spec fn schema_of(line: Seq<char>) -> Option<SchemaView> {
    if line.len() == 0 || line[0] as u32 >= 0x80 {
        None
    } else {
        let space = find_char(line, ' ', 1);
        if space >= line.len() {
            None
        } else {
            match parse_arguments(line, space + 1) {
                None => None,
                Some(entries) => Some(
                    SchemaView { name: line.subrange(1, space), arguments: map_of(entries) },
                ),
            }
        }
    }
}

/// The lines of a text from a position on: the parts between line feeds.
pub open spec fn lines(s: Seq<char>, from: int) -> Seq<Seq<char>>
    decreases s.len() - from,
{
    let stop = find_char(s, '\n', from);
    if from < 0 || stop >= s.len() {
        seq![s.subrange(from, s.len() as int)]
    } else {
        seq![s.subrange(from, stop)] + lines(s, stop + 1)
    }
}

/// The schemas of those lines that hold one, in order.
pub open spec fn commands_of(lines: Seq<Seq<char>>) -> Seq<SchemaView>
    decreases lines.len(),
{
    if lines.len() == 0 {
        Seq::empty()
    } else {
        match schema_of(lines.last()) {
            Some(schema) => commands_of(lines.drop_last()).push(schema),
            None => commands_of(lines.drop_last()),
        }
    }
}

/// The schemas of a list as mathematical values.
pub open spec fn schemas_view(schemas: Seq<BedrockCommandSchema>) -> Seq<SchemaView> {
    Seq::new(schemas.len(), |i: int| schemas[i]@)
}

/// Reads the typed argument that starts after the bracket at `open`: its key
/// and the name of its type, and the position at which reading goes on.
/// Gives nothing where the `": "` between key and type is missing.
fn process_typed_arg(line: &str, chars: &Vec<char>, open: usize) -> (r: Option<
    (String, String, usize),
>)
    requires
        chars@ == line@,
        open < chars@.len(),
    ensures
        ({
            let s = chars@;
            let stop = find_char(s, closing(s[open as int]), open + 1);
            let colon = find_pair(s, ':', ' ', open + 1, stop);
            match r {
                None => colon >= stop,
                Some((key, kind, next)) => {
                    &&& colon < stop
                    &&& key@ == s.subrange(open + 1, colon)
                    &&& kind@ == s.subrange(colon + 2, stop)
                    &&& next == capped(stop + 2, s.len() as int)
                    &&& open < next <= s.len()
                },
            }
        }),
{
    let n = chars.len();
    let end = if chars[open] == '<' {
        '>'
    } else {
        ']'
    };
    let stop = find_char_in(chars, end, open + 1);
    let colon = find_pair_in(chars, ':', ' ', open + 1, stop);
    if colon >= stop {
        return None;
    }
    let key = slice_text(line, open + 1, colon);
    let kind = slice_text(line, colon + 2, stop);
    let next = if stop < n && stop + 1 < n {
        stop + 2
    } else {
        n
    };
    Some((key, kind, next))
}

impl BedrockCommandSchema {
    /// Reads one grammar line.
    pub fn from_str(value: &str) -> (r: Option<BedrockCommandSchema>)
        ensures
            match r {
                Some(schema) => schema_of(value@) == Some(schema@),
                None => schema_of(value@) is None,
            },
    {
        let chars = chars_of(value);
        let n = chars.len();
        if n == 0 {
            return None;
        }
        if chars[0] as u32 >= 0x80 {
            return None;
        }
        let space = find_char_in(&chars, ' ', 1);
        if space >= n {
            return None;
        }
        let name = slice_text(value, 1, space);
        let mut arguments: Vec<(String, BedrockCommandArgument)> = Vec::new();
        let mut pos: usize = space + 1;
        let ghost s = chars@;
        let ghost start: int = space + 1;
        while pos < n
            invariant
                s == chars@,
                s == value@,
                n == s.len(),
                0 <= start <= pos <= n,
                schema_of(value@) == match parse_arguments(s, start) {
                    None => None::<SchemaView>,
                    Some(entries) => Some(
                        SchemaView { name: name@, arguments: map_of(entries) },
                    ),
                },
                parse_arguments(s, start) == match parse_arguments(s, pos as int) {
                    None => None,
                    Some(rest) => Some(entries_view(arguments@) + rest),
                },
            decreases n - pos,
        {
            let first = chars[pos];
            if first == '<' || first == '[' {
                match process_typed_arg(value, &chars, pos) {
                    None => {
                        return None;
                    },
                    Some((key, kind, next)) => {
                        let argument = if first == '<' {
                            BedrockCommandArgument::Required(kind)
                        } else {
                            BedrockCommandArgument::Optional(kind)
                        };
                        arguments.push((key, argument));
                        pos = next;
                    },
                }
            } else {
                let stop = find_char_in(&chars, ' ', pos + 1);
                let key = slice_text(value, pos, stop);
                let next = if stop < n {
                    stop + 1
                } else {
                    n
                };
                arguments.push((key, BedrockCommandArgument::Literal));
                pos = next;
            }
        }
        Some(BedrockCommandSchema { name, arguments })
    }

    /// The argument that the schema holds under a key, if any.
    pub fn get(&self, key: &str) -> (r: Option<&BedrockCommandArgument>)
        ensures
            match r {
                Some(argument) => self@.arguments.dom().contains(key@) && self@.arguments[key@]
                    == argument@,
                None => !self@.arguments.dom().contains(key@),
            },
    {
        let ghost entries = entries_view(self.arguments@);
        let mut i: usize = self.arguments.len();
        assert(entries.subrange(0, i as int) =~= entries);
        while i > 0
            invariant
                entries == entries_view(self.arguments@),
                i <= entries.len(),
                map_of(entries).dom().contains(key@) == map_of(
                    entries.subrange(0, i as int),
                ).dom().contains(key@),
                map_of(entries).dom().contains(key@) ==> map_of(entries)[key@] == map_of(
                    entries.subrange(0, i as int),
                )[key@],
            decreases i,
        {
            let ghost prefix = entries.subrange(0, i as int);
            assert(prefix.drop_last() =~= entries.subrange(0, i - 1));
            i = i - 1;
            if crate::json::same_text(self.arguments[i].0.as_str(), key) {
                return Some(&self.arguments[i].1);
            }
        }
        None
    }
}

/// The command that asks for one page of the list of commands.
#[derive(Clone, Copy, Debug, PartialEq, Eq, Structural)]
pub struct HelpCommand {
    pub page: u32,
}

impl Default for HelpCommand {
    fn default() -> (r: HelpCommand)
        ensures
            r.page == 1,
    {
        HelpCommand { page: 1 }
    }
}

/// The answer to a `HelpCommand`: one page of grammar lines.
#[derive(Clone, Debug, PartialEq)]
pub struct HelpCommandResponse {
    pub body: String,
    pub page: u32,
    pub page_count: u32,
}

/// The mathematical value of a `HelpCommandResponse`.
pub struct HelpResponseView {
    pub body: Seq<char>,
    pub page: u32,
    pub page_count: u32,
}

impl View for HelpCommandResponse {
    type V = HelpResponseView;

    open spec fn view(&self) -> HelpResponseView {
        HelpResponseView { body: self.body@, page: self.page, page_count: self.page_count }
    }
}

/// The low 32 bits of a number.
pub open spec fn low_u32(n: u64) -> u32 {
    (n % 0x1_0000_0000) as u32
}

impl HelpCommandResponse {
    /// The answer that the extra data of a response holds: the text under
    /// `body`, and the low 32 bits of the numbers under `page` and
    /// `pageCount`.
    pub open spec fn parse_spec(data: ObjectView) -> Result<HelpResponseView, Error> {
        match text_field(data, "body") {
            Err(e) => Err(e),
            Ok(body) => match u64_field(data, "page") {
                Err(e) => Err(e),
                Ok(page) => match u64_field(data, "pageCount") {
                    Err(e) => Err(e),
                    Ok(page_count) => Ok(
                        HelpResponseView {
                            body,
                            page: low_u32(page),
                            page_count: low_u32(page_count),
                        },
                    ),
                },
            },
        }
    }

    /// Reads the answer from a response.
    pub fn from_response(response: &CommandResponsePacket) -> (r: Result<
        HelpCommandResponse,
        Error,
    >)
        ensures
            match r {
                Ok(answer) => HelpCommandResponse::parse_spec(response@.extra_data) == Ok::<
                    HelpResponseView,
                    Error,
                >(answer@),
                Err(e) => HelpCommandResponse::parse_spec(response@.extra_data) == Err::<
                    HelpResponseView,
                    Error,
                >(e),
            },
    {
        let body = read_text_field(&response.extra_data, "body")?;
        let page = read_u64_field(&response.extra_data, "page")?;
        let page_count = read_u64_field(&response.extra_data, "pageCount")?;
        Ok(
            HelpCommandResponse {
                body,
                page: (page % 0x1_0000_0000) as u32,
                page_count: (page_count % 0x1_0000_0000) as u32,
            },
        )
    }

    /// The schemas of the grammar lines of the page, in order; a line that
    /// holds no schema is passed over.
    pub fn get_commands(&self) -> (r: Vec<BedrockCommandSchema>)
        ensures
            schemas_view(r@) == commands_of(lines(self.body@, 0)),
    {
        let body = self.body.as_str();
        let chars = chars_of(body);
        let n = chars.len();
        let mut commands: Vec<BedrockCommandSchema> = Vec::new();
        let mut pos: usize = 0;
        let ghost s = chars@;
        let ghost mut done: Seq<Seq<char>> = Seq::empty();
        loop
            invariant_except_break
                s == chars@,
                s == body@,
                s == self.body@,
                n == s.len(),
                pos <= n,
                lines(s, 0) == done + lines(s, pos as int),
                schemas_view(commands@) == commands_of(done),
            ensures
                schemas_view(commands@) == commands_of(lines(self.body@, 0)),
            decreases n - pos,
        {
            let stop = find_char_in(&chars, '\n', pos);
            let line = slice_text(body, pos, stop);
            let ghost next_done = done.push(line@);
            assert(next_done.drop_last() =~= done);
            match BedrockCommandSchema::from_str(line.as_str()) {
                Some(value) => {
                    commands.push(value);
                },
                None => {},
            }
            if stop >= n {
                assert(done + seq![line@] =~= next_done);
                break;
            }
            proof {
                done = next_done;
            }
            pos = stop + 1;
        }
        commands
    }
}

impl Command for HelpCommand {
    type Response = HelpCommandResponse;

    open spec fn line_spec(&self) -> Seq<char> {
        "help "@ + decimal(self.page as nat)
    }

    open spec fn response_spec(
        response: CommandResponseView,
        result: Result<HelpCommandResponse, Error>,
    ) -> bool {
        match result {
            Ok(answer) => HelpCommandResponse::parse_spec(response.extra_data) == Ok::<
                HelpResponseView,
                Error,
            >(answer@),
            Err(e) => HelpCommandResponse::parse_spec(response.extra_data) == Err::<
                HelpResponseView,
                Error,
            >(e),
        }
    }

    fn command_line(&self) -> (r: String) {
        let mut line = "help ".to_owned();
        let page = decimal_text(self.page as u64);
        line.append(page.as_str());
        line
    }

    fn read_response(response: &CommandResponsePacket) -> (r: Result<HelpCommandResponse, Error>) {
        HelpCommandResponse::from_response(response)
    }
}

} // verus!

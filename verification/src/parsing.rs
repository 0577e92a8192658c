//! Tokenizer and parser: from a line of text to a `Command` tree.
//!
//! `tokenize_input` splits a line on runs of whitespace and recognises the
//! reserved operator symbols; `parse` turns the token sequence into a
//! `Command` by a single left-to-right scan in which the first operator
//! encountered becomes the root of the tree (so every operator is
//! right-associative and "precedence" is first occurrence).  Both are total:
//! tokenizing never fails, and parsing returns either a `Command` or a
//! `ParsingError`.  The functions are specified against the spec-level
//! `spec_tokenize` and `spec_parse` below.

use vstd::prelude::*;

use vstd::string::StrSliceExecFns;
use vstd::string::StringExecFns;

use crate::command::{Command, CommandModel, RedirectionType};

verus! {

/// One lexical token of a command line: a word, or one of the reserved
/// operator symbols (`<`, `>`, `>>`, `2>`, `|`, `;`).
#[derive(Debug)]
pub enum Token {
    Word(String),
    RedirectOp(RedirectionType),
    Pipe,
    Separator,
}

/// The mathematical model of a `Token`, over `Seq<char>`.
pub enum TokenModel {
    Word(Seq<char>),
    RedirectOp(RedirectionType),
    Pipe,
    Separator,
}

impl View for Token {
    type V = TokenModel;

    open spec fn view(&self) -> TokenModel {
        match self {
            Token::Word(s) => TokenModel::Word(s@),
            Token::RedirectOp(k) => TokenModel::RedirectOp(*k),
            Token::Pipe => TokenModel::Pipe,
            Token::Separator => TokenModel::Separator,
        }
    }
}

/// The models of a sequence of tokens.
pub open spec fn token_views(tokens: Seq<Token>) -> Seq<TokenModel> {
    tokens.map_values(|t: Token| t@)
}

/// A malformed token sequence: the grammar expected another token and none
/// remained, or a token of the wrong kind stood where a word was required.
#[derive(Debug)]
pub enum ParsingError {
    MissingToken(String),
    UnexpectedToken(String),
}

/// The model of a `ParsingError`: which of the two kinds it is.  The carried
/// message is a human-readable description and not part of the model.
pub enum ParsingErrorModel {
    MissingToken,
    UnexpectedToken,
}

impl ParsingError {
    /// A human-readable description of the error.
    pub fn message(&self) -> (r: String)
        ensures
            self matches ParsingError::MissingToken(c) ==> r@ == "a token is missing: "@ + c@,
            self matches ParsingError::UnexpectedToken(c) ==> r@ == "unexpected token: "@ + c@,
    {
        match self {
            ParsingError::MissingToken(context) => "a token is missing: ".to_owned().concat(
                context.as_str(),
            ),
            ParsingError::UnexpectedToken(context) => "unexpected token: ".to_owned().concat(
                context.as_str(),
            ),
        }
    }
}

impl View for ParsingError {
    type V = ParsingErrorModel;

    open spec fn view(&self) -> ParsingErrorModel {
        match self {
            ParsingError::MissingToken(_) => ParsingErrorModel::MissingToken,
            ParsingError::UnexpectedToken(_) => ParsingErrorModel::UnexpectedToken,
        }
    }
}

/// The model of a parse result.
pub open spec fn parse_result_view(r: Result<Command, ParsingError>) -> Result<
    CommandModel,
    ParsingErrorModel,
> {
    match r {
        Ok(c) => Ok(c@),
        Err(e) => Err(e@),
    }
}

// ---------------------------------------------------------------------------
// The tokenizer's specification.
// ---------------------------------------------------------------------------
/// The whitespace characters a command line is split on: the characters of
/// the Unicode `White_Space` property, the same set that
/// `char::is_whitespace` recognises.
pub open spec fn is_shell_space(c: char) -> bool {
    let u = c as u32;
    ||| u == 0x20
    ||| (0x9 <= u && u <= 0xD)
    ||| u == 0x85
    ||| u == 0xA0
    ||| u == 0x1680
    ||| (0x2000 <= u && u <= 0x200A)
    ||| u == 0x2028
    ||| u == 0x2029
    ||| u == 0x202F
    ||| u == 0x205F
    ||| u == 0x3000
}

/// Which token a whitespace-delimited word stands for: an exact match of one
/// of the reserved operator symbols, and a `Word` otherwise.
pub open spec fn classify_word(w: Seq<char>) -> TokenModel {
    if w.len() == 1 && w[0] == '<' {
        TokenModel::RedirectOp(RedirectionType::In)
    } else if w.len() == 1 && w[0] == '>' {
        TokenModel::RedirectOp(RedirectionType::Out)
    } else if w.len() == 2 && w[0] == '>' && w[1] == '>' {
        TokenModel::RedirectOp(RedirectionType::Append)
    } else if w.len() == 2 && w[0] == '2' && w[1] == '>' {
        TokenModel::RedirectOp(RedirectionType::Stderr)
    } else if w.len() == 1 && w[0] == '|' {
        TokenModel::Pipe
    } else if w.len() == 1 && w[0] == ';' {
        TokenModel::Separator
    } else {
        TokenModel::Word(w)
    }
}

/// Length of the maximal leading run of non-whitespace characters.
pub open spec fn word_len(s: Seq<char>) -> int
    decreases s.len(),
{
    if s.len() == 0 || is_shell_space(s[0]) {
        0
    } else {
        1 + word_len(s.subrange(1, s.len() as int))
    }
}

/// The token sequence of a line: skip whitespace, take the next maximal
/// non-whitespace word, classify it, repeat.
pub open spec fn spec_tokenize(s: Seq<char>) -> Seq<TokenModel>
    decreases s.len(),
    via spec_tokenize_decreases
{
    if s.len() == 0 {
        Seq::empty()
    } else if is_shell_space(s[0]) {
        spec_tokenize(s.subrange(1, s.len() as int))
    } else {
        seq![classify_word(s.subrange(0, word_len(s)))] + spec_tokenize(
            s.subrange(word_len(s), s.len() as int),
        )
    }
}

#[via_fn]
proof fn spec_tokenize_decreases(s: Seq<char>) {
    if s.len() != 0 && !is_shell_space(s[0]) {
        lemma_word_len_bounds(s);
    }
}

/// `word_len` is at most the length of the sequence, and at least 1 when the
/// sequence starts with a non-whitespace character.
pub proof fn lemma_word_len_bounds(s: Seq<char>)
    ensures
        0 <= word_len(s) <= s.len(),
        s.len() > 0 && !is_shell_space(s[0]) ==> 1 <= word_len(s),
    decreases s.len(),
{
    if s.len() != 0 && !is_shell_space(s[0]) {
        lemma_word_len_bounds(s.subrange(1, s.len() as int));
    }
}

/// The exact value of `word_len`: `m` is the word length iff the first `m`
/// characters are non-whitespace and the word ends there (end of line or a
/// whitespace character).
pub proof fn lemma_word_len_exact(s: Seq<char>, m: int)
    requires
        0 <= m <= s.len(),
        forall|k: int| 0 <= k < m ==> !is_shell_space(s[k]),
        m == s.len() || is_shell_space(s[m]),
    ensures
        word_len(s) == m,
    decreases m,
{
    if m == 0 {
    } else {
        let rest = s.subrange(1, s.len() as int);
        lemma_word_len_exact(rest, m - 1);
    }
}

// ---------------------------------------------------------------------------
// The parser's specification.
// ---------------------------------------------------------------------------
/// Whether every token of the sequence is a `Word`.
pub open spec fn all_words(tokens: Seq<TokenModel>) -> bool {
    forall|i: int| 0 <= i < tokens.len() ==> (tokens[i] is Word)
}

/// The characters of a `Word` token (the empty sequence on an operator).
pub open spec fn word_of(t: TokenModel) -> Seq<char> {
    match t {
        TokenModel::Word(w) => w,
        _ => Seq::empty(),
    }
}

/// Index of the first token that is not a `Word`.
pub open spec fn first_op(tokens: Seq<TokenModel>) -> int
    decreases tokens.len(),
{
    if tokens.len() == 0 {
        0
    } else if !(tokens[0] is Word) {
        0
    } else {
        1 + first_op(tokens.subrange(1, tokens.len() as int))
    }
}

/// On a sequence that holds an operator, `first_op` is a valid index, points
/// at an operator, and everything before it is a `Word`.
pub proof fn lemma_first_op_bounds(tokens: Seq<TokenModel>)
    requires
        !all_words(tokens),
    ensures
        0 <= first_op(tokens) < tokens.len(),
        !(tokens[first_op(tokens)] is Word),
        forall|j: int| 0 <= j < first_op(tokens) ==> tokens[j] is Word,
    decreases tokens.len(),
{
    let k = choose|k: int| 0 <= k < tokens.len() && !(tokens[k] is Word);
    if tokens[0] is Word {
        let rest = tokens.subrange(1, tokens.len() as int);
        assert(!(rest[k - 1] is Word));
        lemma_first_op_bounds(rest);
        assert(first_op(tokens) == 1 + first_op(rest));
        assert forall|j: int| 1 <= j < first_op(tokens) implies tokens[j] is Word by {
            assert(rest[j - 1] is Word);
            assert(rest[j - 1] == tokens[j]);
        }
    }
}

/// `first_op` finds exactly the position of the first operator.
pub proof fn lemma_first_op_at(tokens: Seq<TokenModel>, i: int)
    requires
        0 <= i < tokens.len(),
        forall|j: int| 0 <= j < i ==> tokens[j] is Word,
        !(tokens[i] is Word),
    ensures
        first_op(tokens) == i,
    decreases i,
{
    if i > 0 {
        let rest = tokens.subrange(1, tokens.len() as int);
        assert(forall|j: int| 0 <= j < i - 1 ==> rest[j] == tokens[j + 1] && (rest[j] is Word));
        lemma_first_op_at(rest, i - 1);
    }
}

/// What a run of words parses to: the first word is the program path, the
/// remaining words are its arguments.  An empty run is missing its path; a
/// non-word in the run is rejected.
pub open spec fn spec_simple(tokens: Seq<TokenModel>) -> Result<CommandModel, ParsingErrorModel> {
    if tokens.len() == 0 {
        Err(ParsingErrorModel::MissingToken)
    } else if !all_words(tokens) {
        Err(ParsingErrorModel::UnexpectedToken)
    } else {
        Ok(
            CommandModel::Simple {
                path: word_of(tokens[0]),
                args: tokens.subrange(1, tokens.len() as int).map_values(|t: TokenModel| word_of(t)),
            },
        )
    }
}

/// What a `|` at the root parses to: both sides parsed recursively, the left
/// side's error taking precedence.
pub open spec fn spec_pipe(left: Seq<TokenModel>, right: Seq<TokenModel>) -> Result<
    CommandModel,
    ParsingErrorModel,
>
    decreases left.len() + right.len(), 1int,
{
    match spec_parse(left) {
        Err(e) => Err(e),
        Ok(l) => match spec_parse(right) {
            Err(e) => Err(e),
            Ok(r) => Ok(CommandModel::Pipe { left: Box::new(l), right: Box::new(r) }),
        },
    }
}

/// What a `;` at the root parses to: both sides parsed recursively, the left
/// side's error taking precedence.
pub open spec fn spec_separator(left: Seq<TokenModel>, right: Seq<TokenModel>) -> Result<
    CommandModel,
    ParsingErrorModel,
>
    decreases left.len() + right.len(), 1int,
{
    match spec_parse(left) {
        Err(e) => Err(e),
        Ok(l) => match spec_parse(right) {
            Err(e) => Err(e),
            Ok(r) => Ok(CommandModel::Separator { left: Box::new(l), right: Box::new(r) }),
        },
    }
}

/// What a redirection operator at the root parses to: the single token after
/// the operator must be a word and names the target file; the tokens before
/// the operator are parsed recursively as the wrapped command.  Tokens after
/// the file name are ignored (a documented limitation of the grammar).
pub open spec fn spec_redirection(
    kind: RedirectionType,
    left: Seq<TokenModel>,
    right: Seq<TokenModel>,
) -> Result<CommandModel, ParsingErrorModel>
    decreases left.len() + right.len(), 1int,
{
    if right.len() == 0 {
        Err(ParsingErrorModel::MissingToken)
    } else if !(right[0] is Word) {
        Err(ParsingErrorModel::UnexpectedToken)
    } else {
        match spec_parse(left) {
            Err(e) => Err(e),
            Ok(c) => Ok(
                CommandModel::Redirection {
                    kind,
                    command: Box::new(c),
                    file: word_of(right[0]),
                },
            ),
        }
    }
}

/// What a token sequence parses to: if no operator occurs, a simple command;
/// otherwise the first operator becomes the root node, with everything before
/// it as the left (or wrapped) part and everything after it as the right
/// part.
pub open spec fn spec_parse(tokens: Seq<TokenModel>) -> Result<CommandModel, ParsingErrorModel>
    decreases tokens.len(), 0int,
    via spec_parse_decreases
{
    if all_words(tokens) {
        spec_simple(tokens)
    } else {
        let i = first_op(tokens);
        let left = tokens.subrange(0, i);
        let right = tokens.subrange(i + 1, tokens.len() as int);
        match tokens[i] {
            TokenModel::RedirectOp(kind) => spec_redirection(kind, left, right),
            TokenModel::Pipe => spec_pipe(left, right),
            TokenModel::Separator => spec_separator(left, right),
            // `first_op` never points at a word
            TokenModel::Word(_) => arbitrary(),
        }
    }
}

#[via_fn]
proof fn spec_parse_decreases(tokens: Seq<TokenModel>) {
    if !all_words(tokens) {
        lemma_first_op_bounds(tokens);
    }
}

// ---------------------------------------------------------------------------
// The executable tokenizer.
// ---------------------------------------------------------------------------
/// Whether `c` is one of the whitespace characters a line is split on.
fn is_space_char(c: char) -> (r: bool)
    ensures
        r == is_shell_space(c),
{
    let u = c as u32;
    u == 0x20 || (0x9 <= u && u <= 0xD) || u == 0x85 || u == 0xA0 || u == 0x1680 || (0x2000 <= u
        && u <= 0x200A) || u == 0x2028 || u == 0x2029 || u == 0x202F || u == 0x205F || u == 0x3000
}

/// Splits a line into tokens on runs of whitespace; a word equal to one of
/// the reserved operator symbols becomes the corresponding operator token,
/// every other word becomes a `Word`.  Total: any string is tokenizable.
///
/// An operator glued to an adjacent word with no whitespace between them
/// (`echo hi>file`) is not recognised as an operator: lexing is purely
/// whitespace-delimited.
pub fn tokenize_input(input: &str) -> (tokens: Vec<Token>)
    ensures
        token_views(tokens@) == spec_tokenize(input@),
{
    let n = input.unicode_len();
    let mut tokens: Vec<Token> = Vec::new();
    let mut i: usize = 0;
    proof {
        assert(input@.subrange(0, n as int) =~= input@);
        assert(token_views(tokens@) + spec_tokenize(input@) =~= spec_tokenize(input@));
    }
    while i < n
        invariant
            0 <= i <= n,
            n == input@.len(),
            spec_tokenize(input@) == token_views(tokens@) + spec_tokenize(
                input@.subrange(i as int, n as int),
            ),
        decreases n - i,
    {
        let c = input.get_char(i);
        if is_space_char(c) {
            proof {
                let rem = input@.subrange(i as int, n as int);
                assert(rem.subrange(1, rem.len() as int) =~= input@.subrange(
                    i + 1 as int,
                    n as int,
                ));
            }
            i += 1;
        } else {
            let start = i;
            let mut j = i + 1;
            while j < n && !is_space_char(input.get_char(j))
                invariant
                    i < j <= n,
                    n == input@.len(),
                    !is_shell_space(input@[i as int]),
                    forall|k: int| i <= k < j ==> !is_shell_space(input@[k]),
                decreases n - j,
            {
                j += 1;
            }
            let w = input.substring_char(start, j);
            let wlen = j - start;
            let token: Token = if wlen == 1 {
                let c0 = w.get_char(0);
                if c0 == '<' {
                    Token::RedirectOp(RedirectionType::In)
                } else if c0 == '>' {
                    Token::RedirectOp(RedirectionType::Out)
                } else if c0 == '|' {
                    Token::Pipe
                } else if c0 == ';' {
                    Token::Separator
                } else {
                    Token::Word(w.to_owned())
                }
            } else if wlen == 2 {
                let c0 = w.get_char(0);
                let c1 = w.get_char(1);
                if c0 == '>' && c1 == '>' {
                    Token::RedirectOp(RedirectionType::Append)
                } else if c0 == '2' && c1 == '>' {
                    Token::RedirectOp(RedirectionType::Stderr)
                } else {
                    Token::Word(w.to_owned())
                }
            } else {
                Token::Word(w.to_owned())
            };
            proof {
                let rem = input@.subrange(i as int, n as int);
                assert(forall|k: int|
                    0 <= k < j - i ==> rem[k] == input@[i + k] && !is_shell_space(rem[k]));
                assert(j - i == rem.len() || is_shell_space(rem[j - i]));
                lemma_word_len_exact(rem, j - i);
                assert(rem.subrange(0, j - i) =~= input@.subrange(start as int, j as int));
                assert(token@ == classify_word(input@.subrange(start as int, j as int)));
                assert(rem.subrange(j - i, rem.len() as int) =~= input@.subrange(
                    j as int,
                    n as int,
                ));
                assert(token_views(tokens@.push(token)) =~= token_views(tokens@).push(token@));
                assert(token_views(tokens@).push(token@) + spec_tokenize(
                    input@.subrange(j as int, n as int),
                ) =~= token_views(tokens@) + spec_tokenize(rem));
            }
            tokens.push(token);
            i = j;
        }
    }
    proof {
        assert(token_views(tokens@) + spec_tokenize(input@.subrange(i as int, n as int))
            =~= token_views(tokens@));
    }
    tokens
}

// ---------------------------------------------------------------------------
// The executable parser.
// ---------------------------------------------------------------------------
/// Token models commute with taking a subrange of the tokens.
proof fn lemma_token_views_subrange(tokens: Seq<Token>, a: int, b: int)
    requires
        0 <= a <= b <= tokens.len(),
    ensures
        token_views(tokens.subrange(a, b)) == token_views(tokens).subrange(a, b),
{
    assert(token_views(tokens.subrange(a, b)) =~= token_views(tokens).subrange(a, b));
}

/// Builds (if the tokens are well formed) a simple command: the first word is
/// the program path, the remaining words are its arguments.
pub fn create_simple_command(tokens: &[Token]) -> (r: Result<Command, ParsingError>)
    ensures
        parse_result_view(r) == spec_simple(token_views(tokens@)),
{
    let ghost views = token_views(tokens@);
    if tokens.len() == 0 {
        return Err(ParsingError::MissingToken("expected a command path".to_owned()));
    }
    let cmd_path: String = match &tokens[0] {
        Token::Word(s) => s.clone(),
        _ => {
            return Err(ParsingError::UnexpectedToken("command path should be a word".to_owned()));
        },
    };
    let mut cmd_args: Vec<String> = Vec::new();
    let mut i: usize = 1;
    while i < tokens.len()
        invariant
            1 <= i <= tokens@.len(),
            views == token_views(tokens@),
            cmd_path@ == word_of(views[0]),
            views[0] is Word,
            forall|j: int| 0 <= j < i ==> views[j] is Word,
            cmd_args.deep_view() == views.subrange(1, i as int).map_values(
                |t: TokenModel| word_of(t),
            ),
        decreases tokens@.len() - i,
    {
        match &tokens[i] {
            Token::Word(s) => {
                let ghost old_args = cmd_args.deep_view();
                cmd_args.push(s.clone());
                proof {
                    assert(cmd_args.deep_view() =~= old_args.push(s@));
                    assert(views.subrange(1, i + 1 as int).map_values(
                        |t: TokenModel| word_of(t),
                    ) =~= views.subrange(1, i as int).map_values(|t: TokenModel| word_of(t)).push(
                        word_of(views[i as int]),
                    ));
                }
            },
            _ => {
                return Err(
                    ParsingError::UnexpectedToken("command argument should be a word".to_owned()),
                );
            },
        }
        i += 1;
    }
    proof {
        assert(views.subrange(1, views.len() as int) =~= views.subrange(1, i as int));
    }
    Ok(Command::Simple { cmd_path, cmd_args })
}

/// Builds a pipe node: both sides are parsed recursively.
pub fn create_pipe_command(left_tokens: &[Token], right_tokens: &[Token]) -> (r: Result<
    Command,
    ParsingError,
>)
    ensures
        parse_result_view(r) == spec_pipe(token_views(left_tokens@), token_views(right_tokens@)),
    decreases left_tokens@.len() + right_tokens@.len(), 1int,
{
    let left = match parse(left_tokens) {
        Ok(c) => c,
        Err(e) => {
            return Err(e);
        },
    };
    let right = match parse(right_tokens) {
        Ok(c) => c,
        Err(e) => {
            return Err(e);
        },
    };
    Ok(Command::Pipe { left: Box::new(left), right: Box::new(right) })
}

/// Builds a separator node: both sides are parsed recursively.
pub fn create_separator_command(left_tokens: &[Token], right_tokens: &[Token]) -> (r: Result<
    Command,
    ParsingError,
>)
    ensures
        parse_result_view(r) == spec_separator(
            token_views(left_tokens@),
            token_views(right_tokens@),
        ),
    decreases left_tokens@.len() + right_tokens@.len(), 1int,
{
    let left = match parse(left_tokens) {
        Ok(c) => c,
        Err(e) => {
            return Err(e);
        },
    };
    let right = match parse(right_tokens) {
        Ok(c) => c,
        Err(e) => {
            return Err(e);
        },
    };
    Ok(Command::Separator { left: Box::new(left), right: Box::new(right) })
}

/// Builds a redirection node: the first token after the operator must be a
/// word naming the target file; the tokens before the operator are parsed
/// recursively.  Tokens after the file name are ignored (a documented
/// limitation of the grammar).
pub fn create_redirection_command(
    op: &RedirectionType,
    left_tokens: &[Token],
    right_tokens: &[Token],
) -> (r: Result<Command, ParsingError>)
    ensures
        parse_result_view(r) == spec_redirection(
            *op,
            token_views(left_tokens@),
            token_views(right_tokens@),
        ),
    decreases left_tokens@.len() + right_tokens@.len(), 1int,
{
    if right_tokens.len() == 0 {
        return Err(ParsingError::MissingToken("expected a file path".to_owned()));
    }
    let file_path: String = match &right_tokens[0] {
        Token::Word(s) => s.clone(),
        _ => {
            return Err(ParsingError::UnexpectedToken("file path should be a word".to_owned()));
        },
    };
    let command = match parse(left_tokens) {
        Ok(c) => c,
        Err(e) => {
            return Err(e);
        },
    };
    Ok(Command::Redirection { kind: *op, command: Box::new(command), file: file_path })
}

/// Parses a token sequence into a command tree: consecutive words accumulate
/// until the scan ends (a simple command) or the first operator is found,
/// which becomes the root node over everything before and after it.
pub fn parse(tokens: &[Token]) -> (r: Result<Command, ParsingError>)
    ensures
        parse_result_view(r) == spec_parse(token_views(tokens@)),
    decreases tokens@.len(), 0int,
{
    let ghost views = token_views(tokens@);
    let n = tokens.len();
    let mut i: usize = 0;
    while i < n
        invariant
            0 <= i <= n,
            n == tokens@.len(),
            views == token_views(tokens@),
            forall|j: int| 0 <= j < i ==> views[j] is Word,
        decreases n - i,
    {
        match &tokens[i] {
            Token::Word(_) => {
                i += 1;
            },
            Token::RedirectOp(op) => {
                proof {
                    lemma_first_op_at(views, i as int);
                    lemma_token_views_subrange(tokens@, 0, i as int);
                    lemma_token_views_subrange(tokens@, i + 1 as int, tokens@.len() as int);
                }
                let left = vstd::slice::slice_subrange(tokens, 0, i);
                let right = vstd::slice::slice_subrange(tokens, i + 1, n);
                return create_redirection_command(op, left, right);
            },
            Token::Pipe => {
                proof {
                    lemma_first_op_at(views, i as int);
                    lemma_token_views_subrange(tokens@, 0, i as int);
                    lemma_token_views_subrange(tokens@, i + 1 as int, tokens@.len() as int);
                }
                let left = vstd::slice::slice_subrange(tokens, 0, i);
                let right = vstd::slice::slice_subrange(tokens, i + 1, n);
                return create_pipe_command(left, right);
            },
            Token::Separator => {
                proof {
                    lemma_first_op_at(views, i as int);
                    lemma_token_views_subrange(tokens@, 0, i as int);
                    lemma_token_views_subrange(tokens@, i + 1 as int, tokens@.len() as int);
                }
                let left = vstd::slice::slice_subrange(tokens, 0, i);
                let right = vstd::slice::slice_subrange(tokens, i + 1, n);
                return create_separator_command(left, right);
            },
        }
    }
    create_simple_command(tokens)
}

/// Converts a string representing a command into a `Command` tree.
/// For example `"ls /home"` gives `Simple { cmd_path: "ls", cmd_args: ["/home"] }`.
pub fn convert_to_command(input: &str) -> (r: Result<Command, ParsingError>)
    ensures
        parse_result_view(r) == spec_parse(spec_tokenize(input@)),
{
    // Turn the input into a sequence of tokens, then into a command tree.
    let input_tokens = tokenize_input(input);
    parse(input_tokens.as_slice())
}

// ---------------------------------------------------------------------------
// Laws of the grammar.
// ---------------------------------------------------------------------------
/// A token sequence consisting only of words parses to a simple command whose
/// path is the first word and whose arguments are the remaining words.
pub proof fn lemma_words_parse_to_simple(tokens: Seq<TokenModel>)
    requires
        all_words(tokens),
        tokens.len() > 0,
    ensures
        spec_parse(tokens) == Ok::<CommandModel, ParsingErrorModel>(
            CommandModel::Simple {
                path: word_of(tokens[0]),
                args: tokens.subrange(1, tokens.len() as int).map_values(
                    |t: TokenModel| word_of(t),
                ),
            },
        ),
{
}

/// A line consisting only of whitespace-separated words, none of them an
/// operator symbol, parses to a simple command whose path is the first word
/// and whose arguments are the remaining words.
pub proof fn lemma_word_line_parses_to_simple(line: Seq<char>)
    requires
        all_words(spec_tokenize(line)),
        spec_tokenize(line).len() > 0,
    ensures
        spec_parse(spec_tokenize(line)) == Ok::<CommandModel, ParsingErrorModel>(
            CommandModel::Simple {
                path: word_of(spec_tokenize(line)[0]),
                args: spec_tokenize(line).subrange(1, spec_tokenize(line).len() as int).map_values(
                    |t: TokenModel| word_of(t),
                ),
            },
        ),
{
    lemma_words_parse_to_simple(spec_tokenize(line));
}

/// Pipes are right-associative, and more generally the first operator of the
/// scan wins: if the first operator of the sequence is the `|` at position
/// `i`, the whole sequence parses to a pipe whose left side is the simple
/// command of the words before the `|` and whose right side is everything
/// after it, parsed recursively.  On `a | b | c` this yields
/// `Pipe { a, Pipe { b, c } }`.
pub proof fn lemma_pipe_right_associative(tokens: Seq<TokenModel>, i: int)
    requires
        0 < i < tokens.len(),
        forall|j: int| 0 <= j < i ==> tokens[j] is Word,
        tokens[i] is Pipe,
    ensures
        spec_parse(tokens) == (match spec_parse(tokens.subrange(i + 1, tokens.len() as int)) {
            Ok(r) => Ok::<CommandModel, ParsingErrorModel>(
                CommandModel::Pipe {
                    left: Box::new(
                        CommandModel::Simple {
                            path: word_of(tokens[0]),
                            args: tokens.subrange(1, i).map_values(|t: TokenModel| word_of(t)),
                        },
                    ),
                    right: Box::new(r),
                },
            ),
            Err(e) => Err(e),
        }),
{
    lemma_first_op_at(tokens, i);
    let left = tokens.subrange(0, i);
    assert(all_words(left));
    assert(left.subrange(1, left.len() as int) =~= tokens.subrange(1, i));
    lemma_words_parse_to_simple(left);
}

} // verus!

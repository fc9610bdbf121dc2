//! The header of a function in source text: the keywords before its name.
//!
//! ```text
//! header   := [async] generator [location] function
//!           | [async] [location] function [*]
//! location := server | module
//! ```

use crate::span::{span_union, start_of, start_union};
use source_map::{Span, Start};
use std::marker::PhantomData;
use vstd::prelude::*;
use vstd::string::StringExecFns;

verus! {

/// The keywords that a function header can hold; `Other` is any other keyword.
#[derive(Clone, Copy, PartialEq, Eq, Debug, Structural)]
pub enum TSXKeyword {
    Async,
    Function,
    Generator,
    Server,
    Module,
    Other,
}

/// The tokens that the parser of a function looks at; `Other` is any other
/// token.
#[derive(Clone, Copy, PartialEq, Eq, Debug, Structural)]
pub enum TSXToken {
    Keyword(TSXKeyword),
    Multiply,
    OpenChevron,
    CloseChevron,
    Colon,
    /// `=>`
    Arrow,
    Other,
}

/// A token with its position.
#[derive(Clone, Copy, Debug)]
pub struct Token {
    pub kind: TSXToken,
    pub position: Span,
}

/// Where the function runs, as a keyword in its header says.
#[derive(Clone, Copy, Debug)]
pub enum FunctionLocationModifier {
    Server(Span),
    Module(Span),
}

/// The header of a function: either `function` with an optional `*` behind
/// it, or `generator function`. Each keyword is held by its position.
#[derive(Clone, Copy, Debug)]
pub enum FunctionHeader {
    VirginFunctionHeader {
        async_keyword: Option<Span>,
        location: Option<FunctionLocationModifier>,
        function_keyword: Span,
        generator_star_token_position: Option<Span>,
        position: Span,
    },
    ChadFunctionHeader {
        async_keyword: Option<Span>,
        generator_keyword: Option<Span>,
        location: Option<FunctionLocationModifier>,
        function_keyword: Span,
        position: Span,
    },
}

/// A token that the parser did not expect, or the end of the tokens where it
/// expected one.
#[derive(Clone, Copy, Debug)]
pub struct ParseError {
    pub expected: TSXToken,
    pub found: Option<Token>,
}

/// The position from the start of `first` to the end of `last`.
pub open spec fn joined(first: Span, last: Span) -> Span {
    Span { start: first.start, end: last.end, source: () }
}

/// The token at index `at`, if there is one.
pub open spec fn token_at(tokens: Seq<Token>, at: int) -> Option<Token> {
    if 0 <= at < tokens.len() {
        Some(tokens[at])
    } else {
        None
    }
}

/// The location keyword at index `at`, if there is one, and the index behind
/// it.
pub open spec fn location_model(tokens: Seq<Token>, at: int) -> (
    Option<FunctionLocationModifier>,
    int,
) {
    match token_at(tokens, at) {
        Some(token) => match token.kind {
            TSXToken::Keyword(TSXKeyword::Server) => (
                Some(FunctionLocationModifier::Server(token.position)),
                at + 1,
            ),
            TSXToken::Keyword(TSXKeyword::Module) => (
                Some(FunctionLocationModifier::Module(token.position)),
                at + 1,
            ),
            _ => (None, at),
        },
        None => (None, at),
    }
}

/// The position of the keyword `keyword` at index `at` and the index behind
/// it, or the error of not finding it there.
pub open spec fn keyword_model(tokens: Seq<Token>, at: int, keyword: TSXKeyword) -> Result<
    (Span, int),
    ParseError,
> {
    match token_at(tokens, at) {
        Some(token) => if token.kind == TSXToken::Keyword(keyword) {
            Ok((token.position, at + 1))
        } else {
            Err(ParseError { expected: TSXToken::Keyword(keyword), found: Some(token) })
        },
        None => Err(ParseError { expected: TSXToken::Keyword(keyword), found: None }),
    }
}

/// The header `[location] function [*]` from index `at` on, after the
/// optional `async`. Its position starts at `async`, or at `function` without
/// it, and ends behind the `*`, or behind the first of the two without it.
pub open spec fn regular_header_model(tokens: Seq<Token>, at: int, async_keyword: Option<Span>) -> Result<
    (FunctionHeader, int),
    ParseError,
> {
    let (location, after_location) = location_model(tokens, at);
    match keyword_model(tokens, after_location, TSXKeyword::Function) {
        Err(error) => Err(error),
        Ok((function_keyword, after_function)) => {
            let first = match async_keyword {
                Some(position) => position,
                None => function_keyword,
            };
            let (star, end) = match token_at(tokens, after_function) {
                Some(token) => if token.kind == TSXToken::Multiply {
                    (Some(token.position), after_function + 1)
                } else {
                    (None, after_function)
                },
                None => (None, after_function),
            };
            Ok(
                (
                    FunctionHeader::VirginFunctionHeader {
                        async_keyword,
                        location,
                        function_keyword,
                        generator_star_token_position: star,
                        position: match star {
                            Some(star) => joined(first, star),
                            None => first,
                        },
                    },
                    end,
                ),
            )
        },
    }
}

/// The header from index `at` on, after the optional `async`: with
/// `generator` first it is `generator [location] function`, whose position
/// starts at `async`, or at `generator` without it, and ends behind
/// `function`; otherwise it is a regular header.
pub open spec fn header_after_async_model(
    tokens: Seq<Token>,
    at: int,
    async_keyword: Option<Span>,
) -> Result<(FunctionHeader, int), ParseError> {
    match keyword_model(tokens, at, TSXKeyword::Generator) {
        Ok((generator, after_generator)) => {
            let (location, after_location) = location_model(tokens, after_generator);
            match keyword_model(tokens, after_location, TSXKeyword::Function) {
                Err(error) => Err(error),
                Ok((function_keyword, end)) => Ok(
                    (
                        FunctionHeader::ChadFunctionHeader {
                            async_keyword,
                            generator_keyword: Some(generator),
                            location,
                            function_keyword,
                            position: joined(
                                match async_keyword {
                                    Some(position) => position,
                                    None => generator,
                                },
                                function_keyword,
                            ),
                        },
                        end,
                    ),
                ),
            }
        },
        Err(_) => regular_header_model(tokens, at, async_keyword),
    }
}

/// The header from index `at` on and the index behind it, or the error of
/// the first token that does not fit.
pub open spec fn header_model(tokens: Seq<Token>, at: int) -> Result<
    (FunctionHeader, int),
    ParseError,
> {
    match keyword_model(tokens, at, TSXKeyword::Async) {
        Ok((position, after)) => header_after_async_model(tokens, after, Some(position)),
        Err(_) => header_after_async_model(tokens, at, None),
    }
}

/// The view of a parse result: indices as integers.
pub open spec fn parsed<T>(outcome: Result<(T, usize), ParseError>) -> Result<(T, int), ParseError> {
    match outcome {
        Ok((value, at)) => Ok((value, at as int)),
        Err(error) => Err(error),
    }
}

/// The token at index `at`, if there is one.
pub fn peek(tokens: &Vec<Token>, at: usize) -> (token: Option<Token>)
    ensures
        token == token_at(tokens@, at as int),
        token is Some ==> at < usize::MAX,
{
    if at < tokens.len() {
        Some(tokens[at])
    } else {
        None
    }
}

/// Takes the keyword `keyword` at index `at`.
pub fn expect_keyword(tokens: &Vec<Token>, at: usize, keyword: TSXKeyword) -> (outcome: Result<
    (Span, usize),
    ParseError,
>)
    ensures
        parsed(outcome) == keyword_model(tokens@, at as int, keyword),
{
    match peek(tokens, at) {
        Some(token) => {
            if token.kind == TSXToken::Keyword(keyword) {
                Ok((token.position, at + 1))
            } else {
                Err(ParseError { expected: TSXToken::Keyword(keyword), found: Some(token) })
            }
        },
        None => Err(ParseError { expected: TSXToken::Keyword(keyword), found: None }),
    }
}

/// Takes the location keyword at index `at`, if there is one.
pub fn parse_function_location(tokens: &Vec<Token>, at: usize) -> (found: (
    Option<FunctionLocationModifier>,
    usize,
))
    ensures
        (found.0, found.1 as int) == location_model(tokens@, at as int),
{
    match peek(tokens, at) {
        Some(token) => match token.kind {
            TSXToken::Keyword(TSXKeyword::Server) => (
                Some(FunctionLocationModifier::Server(token.position)),
                at + 1,
            ),
            TSXToken::Keyword(TSXKeyword::Module) => (
                Some(FunctionLocationModifier::Module(token.position)),
                at + 1,
            ),
            _ => (None, at),
        },
        None => (None, at),
    }
}

fn join(first: Span, last: Span) -> (whole: Span)
    ensures
        whole == joined(first, last),
{
    let whole = span_union(&first, &last);
    assert(whole.source == ());
    whole
}

/// Parses `[location] function [*]` from index `at` on.
pub fn parse_regular_header(tokens: &Vec<Token>, at: usize, async_keyword: Option<Span>) -> (outcome:
    Result<(FunctionHeader, usize), ParseError>)
    ensures
        parsed(outcome) == regular_header_model(tokens@, at as int, async_keyword),
{
    let (location, after_location) = parse_function_location(tokens, at);
    match expect_keyword(tokens, after_location, TSXKeyword::Function) {
        Err(error) => Err(error),
        Ok((function_keyword, after_function)) => {
            let (star, end) = match peek(tokens, after_function) {
                Some(token) => if token.kind == TSXToken::Multiply {
                    (Some(token.position), after_function + 1)
                } else {
                    (None, after_function)
                },
                None => (None, after_function),
            };
            let mut position = match async_keyword {
                Some(position) => position,
                None => function_keyword,
            };
            if let Some(star) = star {
                position = join(position, star);
            }
            Ok(
                (
                    FunctionHeader::VirginFunctionHeader {
                        async_keyword,
                        location,
                        function_keyword,
                        generator_star_token_position: star,
                        position,
                    },
                    end,
                ),
            )
        },
    }
}

/// Parses a header from index `at` on, behind the optional `async`.
pub fn function_header_from_reader_with_async_keyword(
    tokens: &Vec<Token>,
    at: usize,
    async_keyword: Option<Span>,
) -> (outcome: Result<(FunctionHeader, usize), ParseError>)
    ensures
        parsed(outcome) == header_after_async_model(tokens@, at as int, async_keyword),
{
    match expect_keyword(tokens, at, TSXKeyword::Generator) {
        Ok((generator, after_generator)) => {
            let (location, after_location) = parse_function_location(tokens, after_generator);
            match expect_keyword(tokens, after_location, TSXKeyword::Function) {
                Err(error) => Err(error),
                Ok((function_keyword, end)) => {
                    let first = match async_keyword {
                        Some(position) => position,
                        None => generator,
                    };
                    Ok(
                        (
                            FunctionHeader::ChadFunctionHeader {
                                async_keyword,
                                generator_keyword: Some(generator),
                                location,
                                function_keyword,
                                position: join(first, function_keyword),
                            },
                            end,
                        ),
                    )
                },
            }
        },
        Err(_) => parse_regular_header(tokens, at, async_keyword),
    }
}

impl FunctionHeader {
    /// Parses a header from index `at` on.
    pub fn from_reader(tokens: &Vec<Token>, at: usize) -> (outcome: Result<
        (FunctionHeader, usize),
        ParseError,
    >)
        ensures
            parsed(outcome) == header_model(tokens@, at as int),
    {
        match expect_keyword(tokens, at, TSXKeyword::Async) {
            Ok((position, after)) => function_header_from_reader_with_async_keyword(
                tokens,
                after,
                Some(position),
            ),
            Err(_) => function_header_from_reader_with_async_keyword(tokens, at, None),
        }
    }

    pub open spec fn spec_is_generator(self) -> bool {
        match self {
            FunctionHeader::VirginFunctionHeader {
                generator_star_token_position,
                ..
            } => generator_star_token_position is Some,
            FunctionHeader::ChadFunctionHeader { generator_keyword, .. } => generator_keyword
                is Some,
        }
    }

    pub open spec fn spec_is_async(self) -> bool {
        match self {
            FunctionHeader::VirginFunctionHeader { async_keyword, .. } => async_keyword is Some,
            FunctionHeader::ChadFunctionHeader { async_keyword, .. } => async_keyword is Some,
        }
    }

    pub open spec fn spec_location(self) -> Option<FunctionLocationModifier> {
        match self {
            FunctionHeader::VirginFunctionHeader { location, .. } => location,
            FunctionHeader::ChadFunctionHeader { location, .. } => location,
        }
    }

    pub open spec fn spec_position(self) -> Span {
        match self {
            FunctionHeader::VirginFunctionHeader { position, .. } => position,
            FunctionHeader::ChadFunctionHeader { position, .. } => position,
        }
    }

    /// Whether the function is a generator: it has a `*` or the keyword
    /// `generator`.
    pub fn is_generator(&self) -> (generator: bool)
        ensures
            generator == self.spec_is_generator(),
    {
        match self {
            FunctionHeader::VirginFunctionHeader {
                generator_star_token_position,
                ..
            } => generator_star_token_position.is_some(),
            FunctionHeader::ChadFunctionHeader { generator_keyword, .. } => generator_keyword.is_some(),
        }
    }

    /// Whether the header has the keyword `async`.
    pub fn is_async(&self) -> (is_async: bool)
        ensures
            is_async == self.spec_is_async(),
    {
        match self {
            FunctionHeader::VirginFunctionHeader { async_keyword, .. } => async_keyword.is_some(),
            FunctionHeader::ChadFunctionHeader { async_keyword, .. } => async_keyword.is_some(),
        }
    }

    /// The location keyword of the header, if it has one.
    pub fn get_location(&self) -> (location: Option<&FunctionLocationModifier>)
        ensures
            match location {
                Some(location) => self.spec_location() == Some(*location),
                None => self.spec_location() is None,
            },
    {
        match self {
            FunctionHeader::VirginFunctionHeader { location, .. } => location.as_ref(),
            FunctionHeader::ChadFunctionHeader { location, .. } => location.as_ref(),
        }
    }

    /// The position of the whole header.
    pub fn get_position(&self) -> (position: &Span)
        ensures
            *position == self.spec_position(),
    {
        match self {
            FunctionHeader::VirginFunctionHeader { position, .. } => position,
            FunctionHeader::ChadFunctionHeader { position, .. } => position,
        }
    }

    /// The text of the header: `async ` if it is asynchronous, `function`,
    /// and `* ` if it is a generator or a space if it is none.
    pub open spec fn spec_text(self) -> Seq<char> {
        (if self.spec_is_async() {
            "async "@
        } else {
            Seq::empty()
        }) + "function"@ + (if self.spec_is_generator() {
            "* "@
        } else {
            " "@
        })
    }

    /// Appends the text of the header to `buffer`.
    pub fn to_string_from_buffer(&self, buffer: &mut String)
        ensures
            final(buffer)@ == old(buffer)@ + self.spec_text(),
    {
        if self.is_async() {
            buffer.append("async ");
        }
        buffer.append("function");
        if self.is_generator() {
            buffer.append("* ");
        } else {
            buffer.append(" ");
        }
    }
}

/// How a syntax tree is turned into text.
#[derive(Clone, Copy, Debug)]
pub struct ToStringOptions {
    /// Whether type parameters and return types are written.
    pub include_types: bool,
    /// Whether gaps are written where none is needed.
    pub pretty: bool,
}

/// The gap that is written where none is needed.
pub open spec fn gap_text(options: ToStringOptions) -> Seq<char> {
    if options.pretty {
        " "@
    } else {
        Seq::empty()
    }
}

impl ToStringOptions {
    /// Appends a gap to `buffer` if gaps are written.
    pub fn add_gap(&self, buffer: &mut String)
        ensures
            final(buffer)@ == old(buffer)@ + gap_text(*self),
    {
        if self.pretty {
            buffer.append(" ");
        }
    }
}

/// Where a function stands: as an expression or as a statement. The two
/// differ in what names a function there.
pub trait ExpressionOrStatementPosition {
    type Name;

    /// The text of a name, if the name is there.
    spec fn spec_name_text(name: &Self::Name) -> Option<Seq<char>>;

    /// The text of a name, if the name is there.
    fn as_option_str(name: &Self::Name) -> (text: Option<&str>)
        ensures
            match text {
                Some(text) => Self::spec_name_text(name) == Some(text@),
                None => Self::spec_name_text(name) is None,
            },
    ;
}

/// The position of a function expression, whose name is optional.
pub struct ExpressionPosition;

/// The position of a function statement, which has a name.
pub struct StatementPosition;

impl ExpressionOrStatementPosition for ExpressionPosition {
    type Name = Option<String>;

    open spec fn spec_name_text(name: &Option<String>) -> Option<Seq<char>> {
        match name {
            Some(name) => Some(name@),
            None => None,
        }
    }

    fn as_option_str(name: &Option<String>) -> (text: Option<&str>) {
        match name {
            Some(name) => Some(name.as_str()),
            None => None,
        }
    }
}

impl ExpressionOrStatementPosition for StatementPosition {
    type Name = String;

    open spec fn spec_name_text(name: &String) -> Option<Seq<char>> {
        Some(name@)
    }

    fn as_option_str(name: &String) -> (text: Option<&str>) {
        Some(name.as_str())
    }
}

/// What the kinds of functions differ in: their headers, their names and
/// their bodies.
pub trait FunctionBased {
    /// The keywords and modifiers before the name.
    type Header;

    type Name;

    type Body;

    /// The offset at which the header starts, if the kind has a header.
    spec fn spec_header_left(header: &Self::Header) -> Option<Start>;

    /// The token between the parameters and the body, if the kind has one.
    spec fn spec_parameter_body_boundary_token() -> Option<TSXToken>;

    /// The text of the header and the name.
    spec fn spec_header_and_name_text(header: &Self::Header, name: &Self::Name) -> Seq<char>;

    /// The text between the parameters and the body.
    spec fn spec_boundary_text(options: ToStringOptions) -> Seq<char>;

    /// The offset at which the header starts, if the kind has a header.
    fn header_left(header: &Self::Header) -> (left: Option<Start>)
        ensures
            left == Self::spec_header_left(header),
    ;

    /// The token between the parameters and the body, if the kind has one.
    fn get_parameter_body_boundary_token() -> (token: Option<TSXToken>)
        ensures
            token == Self::spec_parameter_body_boundary_token(),
    ;

    /// Appends the text of the header and the name to `buffer`.
    fn header_and_name_to_string_from_buffer(
        buffer: &mut String,
        header: &Self::Header,
        name: &Self::Name,
    )
        ensures
            final(buffer)@ == old(buffer)@ + Self::spec_header_and_name_text(header, name),
    ;

    /// Appends the text between the parameters and the body to `buffer`.
    fn parameter_body_boundary_token_to_string_from_buffer(
        buffer: &mut String,
        options: &ToStringOptions,
    )
        ensures
            final(buffer)@ == old(buffer)@ + Self::spec_boundary_text(*options),
    ;
}

/// A type parameter of a function, as far as the function reads it.
#[derive(Clone, Copy, Debug)]
pub struct GenericTypeConstraint {
    pub position: Span,
}

/// The annotation of a return type, as far as the function reads it.
#[derive(Clone, Copy, Debug)]
pub struct TypeAnnotation {
    pub position: Span,
}

/// The body of a function with the keyword `function`.
#[derive(Clone, Copy, Debug)]
pub struct Block {
    pub position: Span,
}

/// The parameters of a function, as far as its position depends on them.
#[derive(Clone, Copy, Debug)]
pub struct FunctionParameters {
    pub position: Span,
}

/// The kind of the functions with the keyword `function`.
pub struct GeneralFunctionBase<T: ExpressionOrStatementPosition>(pub PhantomData<T>);

impl<T: ExpressionOrStatementPosition> FunctionBased for GeneralFunctionBase<T> {
    type Header = FunctionHeader;

    type Name = T::Name;

    type Body = Block;

    open spec fn spec_header_left(header: &FunctionHeader) -> Option<Start> {
        Some(Start(header.spec_position().start))
    }

    open spec fn spec_parameter_body_boundary_token() -> Option<TSXToken> {
        None
    }

    open spec fn spec_header_and_name_text(header: &FunctionHeader, name: &T::Name) -> Seq<char> {
        header.spec_text() + match T::spec_name_text(name) {
            Some(name) => name,
            None => Seq::empty(),
        }
    }

    open spec fn spec_boundary_text(options: ToStringOptions) -> Seq<char> {
        gap_text(options)
    }

    fn header_left(header: &FunctionHeader) -> (left: Option<Start>) {
        Some(start_of(header.get_position()))
    }

    fn get_parameter_body_boundary_token() -> (token: Option<TSXToken>) {
        None
    }

    fn header_and_name_to_string_from_buffer(
        buffer: &mut String,
        header: &FunctionHeader,
        name: &T::Name,
    ) {
        header.to_string_from_buffer(buffer);
        if let Some(name) = T::as_option_str(name) {
            buffer.append(name);
        }
    }

    fn parameter_body_boundary_token_to_string_from_buffer(
        buffer: &mut String,
        options: &ToStringOptions,
    ) {
        options.add_gap(buffer);
    }
}

/// The kind of the arrow functions: their header is the optional `async`
/// keyword, they have no name, and `=>` stands before their body.
pub struct ArrowFunctionBase;

impl FunctionBased for ArrowFunctionBase {
    type Header = Option<Span>;

    type Name = ();

    type Body = Block;

    open spec fn spec_header_left(header: &Option<Span>) -> Option<Start> {
        match header {
            Some(position) => Some(Start(position.start)),
            None => None,
        }
    }

    open spec fn spec_parameter_body_boundary_token() -> Option<TSXToken> {
        Some(TSXToken::Arrow)
    }

    open spec fn spec_header_and_name_text(header: &Option<Span>, name: &()) -> Seq<char> {
        match header {
            Some(_) => "async "@,
            None => Seq::empty(),
        }
    }

    open spec fn spec_boundary_text(options: ToStringOptions) -> Seq<char> {
        gap_text(options) + "=>"@ + gap_text(options)
    }

    fn header_left(header: &Option<Span>) -> (left: Option<Start>) {
        match header {
            Some(position) => Some(start_of(position)),
            None => None,
        }
    }

    fn get_parameter_body_boundary_token() -> (token: Option<TSXToken>) {
        Some(TSXToken::Arrow)
    }

    fn header_and_name_to_string_from_buffer(
        buffer: &mut String,
        header: &Option<Span>,
        name: &(),
    ) {
        if header.is_some() {
            buffer.append("async ");
        }
    }

    fn parameter_body_boundary_token_to_string_from_buffer(
        buffer: &mut String,
        options: &ToStringOptions,
    ) {
        options.add_gap(buffer);
        buffer.append("=>");
        options.add_gap(buffer);
    }
}

/// A function with a body: its header, its name, its parameters and its
/// body, with the position of the whole.
pub struct FunctionBase<T: FunctionBased> {
    pub header: T::Header,
    pub name: T::Name,
    pub type_parameters: Option<Vec<GenericTypeConstraint>>,
    pub parameters: FunctionParameters,
    pub return_type: Option<TypeAnnotation>,
    pub body: T::Body,
    pub position: Span,
}

/// The text of a function from the texts of its parts: the header and the
/// name, the type parameters between `<` and `>`, the parameters, the return
/// type behind `: `, what stands between the parameters and the body, and
/// the body. Type parameters and return type are left out where there are
/// none and where types are not written.
pub open spec fn function_text(
    header_and_name: Seq<char>,
    type_parameters: Option<Seq<char>>,
    parameters: Seq<char>,
    return_type: Option<Seq<char>>,
    boundary: Seq<char>,
    body: Seq<char>,
    include_types: bool,
) -> Seq<char> {
    header_and_name + (match type_parameters {
        Some(text) => if include_types {
            "<"@ + text + ">"@
        } else {
            Seq::empty()
        },
        None => Seq::empty(),
    }) + parameters + (match return_type {
        Some(text) => if include_types {
            ": "@ + text
        } else {
            Seq::empty()
        },
        None => Seq::empty(),
    }) + boundary + body
}

/// The text of an optional text.
pub open spec fn optional_text(text: Option<&str>) -> Option<Seq<char>> {
    match text {
        Some(text) => Some(text@),
        None => None,
    }
}

/// The position of a function: from the start of its header, or of its
/// parameters where it has no header, to the end of its body.
pub open spec fn function_position(left: Option<Start>, parameters: Span, body: Span) -> Span {
    match left {
        Some(start) => Span { start: start.0, end: body.end, source: () },
        None => joined(parameters, body),
    }
}

impl<T: FunctionBased> FunctionBase<T> {
    /// The function made of the given parts, of which the body stands at
    /// `body_position`.
    pub fn from_parts(
        header: T::Header,
        name: T::Name,
        type_parameters: Option<Vec<GenericTypeConstraint>>,
        parameters: FunctionParameters,
        return_type: Option<TypeAnnotation>,
        body: T::Body,
        body_position: &Span,
    ) -> (function: FunctionBase<T>)
        ensures
            function.header == header,
            function.name == name,
            function.type_parameters == type_parameters,
            function.parameters == parameters,
            function.return_type == return_type,
            function.body == body,
            function.position == function_position(
                T::spec_header_left(&header),
                parameters.position,
                *body_position,
            ),
    {
        let position = match T::header_left(&header) {
            Some(start) => {
                let whole = start_union(&start, body_position);
                assert(whole.source == ());
                whole
            },
            None => join(parameters.position, *body_position),
        };
        FunctionBase { header, name, type_parameters, parameters, return_type, body, position }
    }

    /// Appends the text of the function to `buffer`. The texts of the type
    /// parameters, the parameters, the return type and the body are given;
    /// the header, the name and what stands before the body are the
    /// function's own.
    pub fn to_string_from_buffer(
        &self,
        buffer: &mut String,
        type_parameters: Option<&str>,
        parameters: &str,
        return_type: Option<&str>,
        body: &str,
        options: &ToStringOptions,
    )
        ensures
            final(buffer)@ == old(buffer)@ + function_text(
                T::spec_header_and_name_text(&self.header, &self.name),
                optional_text(type_parameters),
                parameters@,
                optional_text(return_type),
                T::spec_boundary_text(*options),
                body@,
                options.include_types,
            ),
    {
        T::header_and_name_to_string_from_buffer(buffer, &self.header, &self.name);
        if options.include_types {
            if let Some(type_parameters) = type_parameters {
                buffer.append("<");
                buffer.append(type_parameters);
                buffer.append(">");
            }
        }
        buffer.append(parameters);
        if options.include_types {
            if let Some(return_type) = return_type {
                buffer.append(": ");
                buffer.append(return_type);
            }
        }
        T::parameter_body_boundary_token_to_string_from_buffer(buffer, options);
        buffer.append(body);
    }

    /// The position of the whole function.
    pub fn get_position(&self) -> (position: &Span)
        ensures
            *position == self.position,
    {
        &self.position
    }
}

/// How far the parser of a function has come behind the header and the
/// name: the part that it parsed last.
#[derive(Clone, Copy, PartialEq, Eq, Debug, Structural)]
pub enum ParseStage {
    Name,
    TypeParameters,
    Parameters,
    ReturnType,
    Boundary,
    Body,
}

/// What the parser of a function does next.
#[derive(Clone, Copy, PartialEq, Eq, Debug, Structural)]
pub enum ParseAction {
    /// Take `<` and parse the type parameters up to `>`.
    ParseTypeParameters,
    ParseParameters,
    /// Take `:` and parse the return type.
    ParseReturnType,
    /// Take the token between the parameters and the body.
    Expect(TSXToken),
    ParseBody,
    /// Put the function together.
    Finish,
}

/// What the parser does at a stage, and the stage behind that, when the next
/// token is `upcoming` and the kind of function has the token `boundary`
/// between its parameters and its body.
///
/// Type parameters are parsed if `<` follows the name, a return type if `:`
/// follows the parameters; the boundary is taken if the kind has one. The
/// parameters and the body are always parsed.
pub open spec fn step_model(
    stage: ParseStage,
    upcoming: Option<TSXToken>,
    boundary: Option<TSXToken>,
) -> (ParseAction, ParseStage) {
    let before_body = match boundary {
        Some(token) => (ParseAction::Expect(token), ParseStage::Boundary),
        None => (ParseAction::ParseBody, ParseStage::Body),
    };
    match stage {
        ParseStage::Name => if upcoming == Some(TSXToken::OpenChevron) {
            (ParseAction::ParseTypeParameters, ParseStage::TypeParameters)
        } else {
            (ParseAction::ParseParameters, ParseStage::Parameters)
        },
        ParseStage::TypeParameters => (ParseAction::ParseParameters, ParseStage::Parameters),
        ParseStage::Parameters => if upcoming == Some(TSXToken::Colon) {
            (ParseAction::ParseReturnType, ParseStage::ReturnType)
        } else {
            before_body
        },
        ParseStage::ReturnType => before_body,
        ParseStage::Boundary => (ParseAction::ParseBody, ParseStage::Body),
        ParseStage::Body => (ParseAction::Finish, ParseStage::Body),
    }
}

/// What the parser of a function of the kind `T` does at `stage` when the
/// next token is `upcoming`, and the stage behind that.
pub fn next_step<T: FunctionBased>(stage: ParseStage, upcoming: Option<TSXToken>) -> (step: (
    ParseAction,
    ParseStage,
))
    ensures
        step == step_model(stage, upcoming, T::spec_parameter_body_boundary_token()),
{
    match stage {
        ParseStage::Name => {
            if let Some(TSXToken::OpenChevron) = upcoming {
                (ParseAction::ParseTypeParameters, ParseStage::TypeParameters)
            } else {
                (ParseAction::ParseParameters, ParseStage::Parameters)
            }
        },
        ParseStage::TypeParameters => (ParseAction::ParseParameters, ParseStage::Parameters),
        ParseStage::Boundary => (ParseAction::ParseBody, ParseStage::Body),
        ParseStage::Body => (ParseAction::Finish, ParseStage::Body),
        ParseStage::Parameters | ParseStage::ReturnType => {
            let with_type = match (stage, upcoming) {
                (ParseStage::Parameters, Some(TSXToken::Colon)) => true,
                _ => false,
            };
            if with_type {
                (ParseAction::ParseReturnType, ParseStage::ReturnType)
            } else {
                match T::get_parameter_body_boundary_token() {
                    Some(token) => (ParseAction::Expect(token), ParseStage::Boundary),
                    None => (ParseAction::ParseBody, ParseStage::Body),
                }
            }
        },
    }
}

} // verus!

use call_checker::syntax::{
    function_header_from_reader_with_async_keyword, next_step, parse_function_location,
    parse_regular_header, ArrowFunctionBase, Block, ExpressionOrStatementPosition,
    ExpressionPosition, FunctionBase, FunctionBased, FunctionHeader, FunctionLocationModifier,
    FunctionParameters, GeneralFunctionBase, GenericTypeConstraint, ParseAction, ParseStage,
    StatementPosition, TSXKeyword, TSXToken, ToStringOptions, Token, TypeAnnotation,
};
use source_map::Span;

fn span(start: u32, end: u32) -> Span {
    Span { start, end, source: () }
}

fn keyword(keyword: TSXKeyword, start: u32, end: u32) -> Token {
    Token { kind: TSXToken::Keyword(keyword), position: span(start, end) }
}

fn token(kind: TSXToken, start: u32, end: u32) -> Token {
    Token { kind, position: span(start, end) }
}

#[test]
fn plain_function_header() {
    let tokens = vec![keyword(TSXKeyword::Function, 4, 12), token(TSXToken::Other, 13, 16)];
    let (header, after) = FunctionHeader::from_reader(&tokens, 0).unwrap();
    assert_eq!(after, 1);
    assert!(!header.is_async());
    assert!(!header.is_generator());
    assert!(header.get_location().is_none());
    assert_eq!(*header.get_position(), span(4, 12));
    assert!(matches!(header, FunctionHeader::VirginFunctionHeader { function_keyword, .. }
        if function_keyword == span(4, 12)));
}

#[test]
fn async_generator_header_with_a_star() {
    let tokens = vec![
        keyword(TSXKeyword::Async, 0, 5),
        keyword(TSXKeyword::Function, 6, 14),
        token(TSXToken::Multiply, 14, 15),
        token(TSXToken::Other, 16, 19),
    ];
    let (header, after) = FunctionHeader::from_reader(&tokens, 0).unwrap();
    assert_eq!(after, 3);
    assert!(header.is_async());
    assert!(header.is_generator());
    assert_eq!(*header.get_position(), span(0, 15));
    match header {
        FunctionHeader::VirginFunctionHeader {
            async_keyword,
            generator_star_token_position,
            function_keyword,
            ..
        } => {
            assert_eq!(async_keyword, Some(span(0, 5)));
            assert_eq!(generator_star_token_position, Some(span(14, 15)));
            assert_eq!(function_keyword, span(6, 14));
        }
        _ => panic!("a header with a star is a regular header"),
    }
}

#[test]
fn star_without_async_starts_at_the_function_keyword() {
    let tokens = vec![keyword(TSXKeyword::Function, 6, 14), token(TSXToken::Multiply, 15, 16)];
    let (header, after) = parse_regular_header(&tokens, 0, None).unwrap();
    assert_eq!(after, 2);
    assert_eq!(*header.get_position(), span(6, 16));
}

#[test]
fn generator_keyword_header_with_a_location() {
    let tokens = vec![
        keyword(TSXKeyword::Async, 0, 5),
        keyword(TSXKeyword::Generator, 6, 15),
        keyword(TSXKeyword::Server, 16, 22),
        keyword(TSXKeyword::Function, 23, 31),
        token(TSXToken::Multiply, 31, 32),
    ];
    let (header, after) = FunctionHeader::from_reader(&tokens, 0).unwrap();
    assert_eq!(after, 4);
    assert!(header.is_async());
    assert!(header.is_generator());
    assert!(matches!(header.get_location(), Some(FunctionLocationModifier::Server(at))
        if *at == span(16, 22)));
    assert_eq!(*header.get_position(), span(0, 31));
    assert!(matches!(header, FunctionHeader::ChadFunctionHeader { generator_keyword, .. }
        if generator_keyword == Some(span(6, 15))));

    let (header, after) =
        function_header_from_reader_with_async_keyword(&tokens, 1, None).unwrap();
    assert_eq!(after, 4);
    assert!(!header.is_async());
    assert_eq!(*header.get_position(), span(6, 31));
}

#[test]
fn location_before_the_function_keyword() {
    let tokens = vec![keyword(TSXKeyword::Module, 2, 8), keyword(TSXKeyword::Function, 9, 17)];
    let (location, after) = parse_function_location(&tokens, 0);
    assert!(matches!(location, Some(FunctionLocationModifier::Module(at)) if at == span(2, 8)));
    assert_eq!(after, 1);
    let (location, after) = parse_function_location(&tokens, 1);
    assert!(location.is_none());
    assert_eq!(after, 1);
    let (location, after) = parse_function_location(&tokens, 2);
    assert!(location.is_none());
    assert_eq!(after, 2);
    let (header, after) = FunctionHeader::from_reader(&tokens, 0).unwrap();
    assert_eq!(after, 2);
    assert!(matches!(header.get_location(), Some(FunctionLocationModifier::Module(_))));
    assert_eq!(*header.get_position(), span(9, 17));
}

#[test]
fn header_without_the_function_keyword_is_an_error() {
    let tokens = vec![keyword(TSXKeyword::Async, 0, 5), token(TSXToken::Colon, 6, 7)];
    let error = FunctionHeader::from_reader(&tokens, 0).unwrap_err();
    assert_eq!(error.expected, TSXToken::Keyword(TSXKeyword::Function));
    assert!(matches!(error.found, Some(Token { kind: TSXToken::Colon, position })
        if position == span(6, 7)));
    let error = FunctionHeader::from_reader(&tokens[..1].to_vec(), 0).unwrap_err();
    assert_eq!(error.expected, TSXToken::Keyword(TSXKeyword::Function));
    assert!(error.found.is_none());
    let tokens = vec![keyword(TSXKeyword::Generator, 0, 9), keyword(TSXKeyword::Other, 10, 12)];
    let error = FunctionHeader::from_reader(&tokens, 0).unwrap_err();
    assert!(matches!(error.found, Some(Token { kind: TSXToken::Keyword(TSXKeyword::Other), .. })));
}

#[test]
fn header_text() {
    let text = |tokens: Vec<Token>| {
        let (header, _) = FunctionHeader::from_reader(&tokens, 0).unwrap();
        let mut buffer = String::from("export ");
        header.to_string_from_buffer(&mut buffer);
        buffer
    };
    assert_eq!(text(vec![keyword(TSXKeyword::Function, 0, 8)]), "export function ");
    assert_eq!(
        text(vec![keyword(TSXKeyword::Async, 0, 5), keyword(TSXKeyword::Function, 6, 14)]),
        "export async function "
    );
    assert_eq!(
        text(vec![keyword(TSXKeyword::Function, 0, 8), token(TSXToken::Multiply, 8, 9)]),
        "export function* "
    );
    assert_eq!(
        text(vec![
            keyword(TSXKeyword::Async, 0, 5),
            keyword(TSXKeyword::Generator, 6, 15),
            keyword(TSXKeyword::Function, 16, 24)
        ]),
        "export async function* "
    );
}

#[test]
fn function_position_runs_from_the_header_to_the_body() {
    let tokens = vec![keyword(TSXKeyword::Async, 3, 8), keyword(TSXKeyword::Function, 9, 17)];
    let (header, _) = FunctionHeader::from_reader(&tokens, 0).unwrap();
    let left = <GeneralFunctionBase<StatementPosition> as FunctionBased>::header_left(&header);
    assert_eq!(left.map(|start| start.0), Some(3));
    let function: FunctionBase<GeneralFunctionBase<StatementPosition>> = FunctionBase::from_parts(
        header,
        "run".to_string(),
        Some(vec![GenericTypeConstraint { position: span(18, 19) }]),
        FunctionParameters { position: span(21, 23) },
        Some(TypeAnnotation { position: span(25, 28) }),
        Block { position: span(24, 40) },
        &span(24, 40),
    );
    assert_eq!(function.type_parameters.as_ref().map(|parameters| parameters.len()), Some(1));
    assert!(matches!(function.return_type, Some(TypeAnnotation { position }) if position == span(25, 28)));
    assert_eq!(*function.get_position(), span(3, 40));
    assert_eq!(function.name, "run");
    let unnamed: FunctionBase<GeneralFunctionBase<ExpressionPosition>> = FunctionBase::from_parts(
        header,
        None,
        None,
        FunctionParameters { position: span(21, 23) },
        None,
        Block { position: span(24, 41) },
        &span(24, 41),
    );
    assert_eq!(unnamed.position, span(3, 41));
    assert!(unnamed.name.is_none());
}

#[test]
fn function_without_a_header_starts_at_its_parameters() {
    let function: FunctionBase<ArrowFunctionBase> = FunctionBase::from_parts(
        None,
        (),
        None,
        FunctionParameters { position: span(5, 11) },
        None,
        Block { position: span(15, 30) },
        &span(15, 30),
    );
    assert_eq!(function.position, span(5, 30));
    let function: FunctionBase<ArrowFunctionBase> = FunctionBase::from_parts(
        Some(span(1, 6)),
        (),
        None,
        FunctionParameters { position: span(7, 11) },
        None,
        Block { position: span(15, 31) },
        &span(15, 31),
    );
    assert_eq!(function.position, span(1, 31));
    assert_eq!(ArrowFunctionBase::get_parameter_body_boundary_token(), Some(TSXToken::Arrow));
    assert_eq!(
        <GeneralFunctionBase<ExpressionPosition> as FunctionBased>::get_parameter_body_boundary_token(),
        None
    );
}

#[test]
fn parts_of_a_function_are_read_in_order() {
    type Plain = GeneralFunctionBase<StatementPosition>;
    type Arrow = ArrowFunctionBase;
    assert_eq!(
        next_step::<Plain>(ParseStage::Name, Some(TSXToken::OpenChevron)),
        (ParseAction::ParseTypeParameters, ParseStage::TypeParameters)
    );
    assert_eq!(
        next_step::<Plain>(ParseStage::Name, Some(TSXToken::Other)),
        (ParseAction::ParseParameters, ParseStage::Parameters)
    );
    assert_eq!(
        next_step::<Plain>(ParseStage::TypeParameters, Some(TSXToken::OpenChevron)),
        (ParseAction::ParseParameters, ParseStage::Parameters)
    );
    assert_eq!(
        next_step::<Plain>(ParseStage::Parameters, Some(TSXToken::Colon)),
        (ParseAction::ParseReturnType, ParseStage::ReturnType)
    );
    assert_eq!(
        next_step::<Plain>(ParseStage::Parameters, None),
        (ParseAction::ParseBody, ParseStage::Body)
    );
    assert_eq!(
        next_step::<Plain>(ParseStage::ReturnType, Some(TSXToken::Colon)),
        (ParseAction::ParseBody, ParseStage::Body)
    );
    assert_eq!(
        next_step::<Plain>(ParseStage::Body, None),
        (ParseAction::Finish, ParseStage::Body)
    );
    assert_eq!(
        next_step::<Arrow>(ParseStage::Parameters, Some(TSXToken::Other)),
        (ParseAction::Expect(TSXToken::Arrow), ParseStage::Boundary)
    );
    assert_eq!(
        next_step::<Arrow>(ParseStage::ReturnType, None),
        (ParseAction::Expect(TSXToken::Arrow), ParseStage::Boundary)
    );
    assert_eq!(
        next_step::<Arrow>(ParseStage::Boundary, None),
        (ParseAction::ParseBody, ParseStage::Body)
    );
}

fn plain_header() -> FunctionHeader {
    FunctionHeader::from_reader(&vec![keyword(TSXKeyword::Function, 0, 8)], 0).unwrap().0
}

#[test]
fn function_text_is_put_together_from_its_parts() {
    let function: FunctionBase<GeneralFunctionBase<StatementPosition>> = FunctionBase::from_parts(
        plain_header(),
        "run".to_string(),
        None,
        FunctionParameters { position: span(12, 18) },
        None,
        Block { position: span(19, 30) },
        &span(19, 30),
    );
    let text = |include_types: bool, pretty: bool, types: Option<&str>, returns: Option<&str>| {
        let mut buffer = String::from("export ");
        function.to_string_from_buffer(
            &mut buffer,
            types,
            "(a, b)",
            returns,
            "{}",
            &ToStringOptions { include_types, pretty },
        );
        buffer
    };
    assert_eq!(text(true, true, Some("T"), Some("T")), "export function run<T>(a, b): T {}");
    assert_eq!(text(true, false, Some("T"), Some("T")), "export function run<T>(a, b): T{}");
    assert_eq!(text(false, true, Some("T"), Some("T")), "export function run(a, b) {}");
    assert_eq!(text(true, true, None, Some("void")), "export function run(a, b): void {}");
    assert_eq!(text(true, true, Some("A, B"), None), "export function run<A, B>(a, b) {}");
    assert_eq!(text(false, false, None, None), "export function run(a, b){}");
}

#[test]
fn arrow_function_text_has_an_arrow_before_the_body() {
    let text = |header: Option<Span>, pretty: bool| {
        let function: FunctionBase<ArrowFunctionBase> = FunctionBase::from_parts(
            header,
            (),
            None,
            FunctionParameters { position: span(6, 9) },
            None,
            Block { position: span(13, 14) },
            &span(13, 14),
        );
        let mut buffer = String::new();
        function.to_string_from_buffer(
            &mut buffer,
            None,
            "(x)",
            Some("number"),
            "x",
            &ToStringOptions { include_types: true, pretty },
        );
        buffer
    };
    assert_eq!(text(None, true), "(x): number => x");
    assert_eq!(text(None, false), "(x): number=>x");
    assert_eq!(text(Some(span(0, 5)), true), "async (x): number => x");
}

#[test]
fn names_of_functions_are_optional_in_expressions() {
    assert_eq!(ExpressionPosition::as_option_str(&Some("f".to_string())), Some("f"));
    assert_eq!(ExpressionPosition::as_option_str(&None), None);
    assert_eq!(StatementPosition::as_option_str(&"g".to_string()), Some("g"));
    let mut buffer = String::new();
    <GeneralFunctionBase<ExpressionPosition> as FunctionBased>::header_and_name_to_string_from_buffer(
        &mut buffer,
        &plain_header(),
        &None,
    );
    assert_eq!(buffer, "function ");
    let mut gap = String::from("a");
    ToStringOptions { include_types: false, pretty: true }.add_gap(&mut gap);
    ToStringOptions { include_types: false, pretty: false }.add_gap(&mut gap);
    assert_eq!(gap, "a ");
}

use lacon_rust_parser::lexer::scanner::Scanner;
use lacon_rust_parser::lexer::token_type::TokenType;

fn sample() -> String {
    let lines = [
        "\n",
        "a - b     \n",
        "a-b       \n",
        "a -2      \n",
        "a - 2       \n",
        "a b - 2       \n",
        "a b -2  \n",
        "\n",
        "global const const-name a - b     \n",
        "global const const-name a-b       \n",
        "global const const-name a -2      \n",
        "global const const-name a - 2       \n",
        "global const const-name a b - 2       \n",
        "global const const-name a b -2  \n",
        "/|\\ 1. Смешанный режим: отступы + явные скобки\n",
        "container App\n",
        "    /|\\ Внутри App работают отступы\n",
        "    styles {\n",
        "        /|\\ Внутри скобок отступы могут плавать\n",
        "        width: 100%\n",
        "    padding: 20px\n",
        "          color: #fff\n",
        "    }\n",
        "\n",
        "    /|\\ Снова возвращаемся к строгим отступам\n",
        "    logic\n",
        "        if status == \"active\"\n",
        "            opacity -1.0\n",
        "        else\n",
        "            opacity 0\n",
        "\n",
        "/|\\ 2. Тест \"слипшихся\" отрицательных чисел и операторов\n",
        "calc-result = base-val -5 --2 + -10%\n",
        "/|\\ Ожидаем: [id(calc-result), eq, id(base-val), ws, num(-5), minus, num(-2), plus, num(-10%)]\n",
        "\n",
        "/|\\ 3. Многострочные строки и вызовы в цепочке\n",
        "text-data = \"\"\"\n",
        "    Line 1\n",
        "    Line 2\n",
        "    \"\"\".trim().to-upper()\n",
        "\n",
        "/|\\ 4. Крайний случай индентации и пустых строк\n",
        "root\n",
        "    level1\n",
        "        \n",
        "        /|\\ Комментарий на пустой строке не должен прерывать блок\n",
        "        level2\n",
        "            target-node\n",
        "\n",
        "/|\\ 5. Ловушка для комментариев и операторов\n",
        "x = 10 / 2 /* деление */ + 5 /|\\ сумма\n",
        "y = (5 * 2)z /|\\ Whitespace-assign после скобок\n",
        "private const superstring<String> = \"this is \\\"super\\\" string\"\n",
        "\n",
        "let speed 278mi/h\n",
        "let length 25pc\n",
        "const generator-power 15kW\n",
        "const vector-shield-dimension 2D\n",
        "const fule-energy 1.5MJ\n",
        "\n",
        "let string \"string\"\n",
        "let string 'string'\n",
        "let string `string`\n",
        "let interpolated-string \"string with ${first-word} and ${second-word}, \\${escaped}\"\n",
        "\n",
        "const first-word snow\n",
        "const second-word=fall\n",
        "const winter-${first-word}${second-word} #dbebed\n",
        "const winter-${first-word}-${second-word} #dbebed\n",
        "const winter-${first-word}_${second-word} #dbebed\n",
        "winter-${a}-${b} value\n",
        "",
    ];
    lines.join("")
}

#[test]
fn test_lexer_to_file() {
    let source = sample();

    let mut scanner = Scanner::new(source.to_string());
    let tokens = scanner.scan_tokens().clone();

    let mut table = String::new();
    table.push_str(&format!("{:<20} | {:<15} | {:<10}\n", "TYPE", "LEXEME", "LITERAL"));
    table.push_str(&format!("{}\n", "-".repeat(50)));

    for token in &tokens {
        let literal_str = match &token.literal {
            Some(l) => l.clone(),
            None => "None".to_string(),
        };

        table.push_str(&format!(
            "{:<20} | {:<15} | {:<10}\n",
            format!("{:?}", token.token_type),
            token.lexeme.replace("\n", "\\n"),
            literal_str
        ));
    }

    assert_eq!(tokens[0].token_type, TokenType::BOF);
    assert_eq!(tokens[tokens.len() - 1].token_type, TokenType::EOF);
    assert!(scanner.errors.is_empty(), "{table} {:?}", scanner.errors);
    assert!(table.starts_with("TYPE                 | LEXEME          | LITERAL   \n"));
    assert!(table.contains("UnitSpeed            | 278mi/h         | 278       \n"));
    assert!(table.contains("UnitLength           | 25pc            | 25        \n"));
    assert!(table.contains("UnitElectricPower    | 15kW            | 15        \n"));
    assert!(table.contains("UnitDimension        | 2D              | 2         \n"));
    assert!(table.contains("UnitEnergy           | 1.5MJ           | 1.5       \n"));
    assert!(table.contains("Identifier           | const-name      | None      \n"));
    assert!(table.contains("Identifier           | calc-result     | None      \n"));
    let count = |kind: TokenType| tokens.iter().filter(|t| t.token_type == kind).count();
    assert_eq!(count(TokenType::Indent), count(TokenType::Dedent));
    assert_eq!(count(TokenType::MultilineString), 1);
    assert_eq!(count(TokenType::SingleQuotedString), 1);
    assert_eq!(count(TokenType::GraveQuotedString), 1);
    assert_eq!(count(TokenType::DollarLeftBrace), 10);
    assert_eq!(count(TokenType::Error), 0);
    assert_eq!(scanner.interpolation_depth(), 0);
}

use infer_base::facts::parse_fact_row;

#[test]
fn fact_row_of_two_numbers() {
   assert_eq!(parse_fact_row("1 2"), Some((1, 2)));
   assert_eq!(parse_fact_row("10\t20"), Some((10, 20)));
}

#[test]
fn fact_row_skips_white_space_and_extra_tokens() {
   assert_eq!(parse_fact_row("  7 \t 8   9 x"), Some((7, 8)));
   assert_eq!(parse_fact_row("3\u{3000}4\r"), Some((3, 4)));
}

#[test]
fn fact_row_accepts_plus_sign_and_bounds() {
   assert_eq!(parse_fact_row("+5 6"), Some((5, 6)));
   assert_eq!(parse_fact_row("4294967295 0"), Some((u32::MAX, 0)));
   assert_eq!(parse_fact_row("007 08"), Some((7, 8)));
}

#[test]
fn fact_row_rejects_missing_tokens() {
   assert_eq!(parse_fact_row(""), None);
   assert_eq!(parse_fact_row("   "), None);
   assert_eq!(parse_fact_row("12"), None);
   assert_eq!(parse_fact_row("12   "), None);
}

#[test]
fn fact_row_rejects_bad_numbers() {
   assert_eq!(parse_fact_row("a 2"), None);
   assert_eq!(parse_fact_row("1 -2"), None);
   assert_eq!(parse_fact_row("4294967296 1"), None);
   assert_eq!(parse_fact_row("1 99999999999999999999"), None);
   assert_eq!(parse_fact_row("+ 1"), None);
   assert_eq!(parse_fact_row("1 2x"), None);
}

#[test]
fn fact_row_agrees_with_std_parsing() {
   for row in ["1 2", " 33  44 ", "+1 +2", "1", "x y", "5 4294967296", "\u{a0}9\u{2003}10"] {
      let mut it = row.split_whitespace();
      let expected = match (it.next(), it.next()) {
         (Some(a), Some(b)) => match (a.parse::<u32>(), b.parse::<u32>()) {
            (Ok(x), Ok(y)) => Some((x, y)),
            _ => None,
         },
         _ => None,
      };
      assert_eq!(parse_fact_row(row), expected);
   }
}

//! The serializer: renders a policy into the exact textual grammar that the
//! external policy engine expects.
//!
//! The grammar is a sequence of `RULE` blocks separated by exactly one blank
//! line, with no leading or trailing blank line. Every line of a rule body is
//! indented by two spaces. The whole rendering is specified by
//! [`policy_text`], a function of the policy value alone, so serialization is
//! deterministic.

use vstd::prelude::*;
use vstd::string::StringExecFns;

use crate::types::{DirectoriesPlus, Name, Policy, Rule, RuleType, Show, Where};

verus! {

// ------------------------------------------------------------------------
// decimal rendering
// ------------------------------------------------------------------------

/// The decimal digit character for a value below ten.
pub open spec fn digit_char(d: nat) -> char {
    if d == 0 {
        '0'
    } else if d == 1 {
        '1'
    } else if d == 2 {
        '2'
    } else if d == 3 {
        '3'
    } else if d == 4 {
        '4'
    } else if d == 5 {
        '5'
    } else if d == 6 {
        '6'
    } else if d == 7 {
        '7'
    } else if d == 8 {
        '8'
    } else {
        '9'
    }
}

/// The decimal digits of `n`, most significant first, without sign or
/// leading zeros (`0` renders as `"0"`).
pub open spec fn dec_digits(n: nat) -> Seq<char>
    decreases n,
{
    if n < 10 {
        seq![digit_char(n)]
    } else {
        dec_digits(n / 10).push(digit_char(n % 10))
    }
}

/// The decimal rendering of a signed value: a minus sign before the digits
/// of the magnitude when negative.
pub open spec fn dec_int(n: int) -> Seq<char> {
    if n < 0 {
        seq!['-'] + dec_digits((-n) as nat)
    } else {
        dec_digits(n as nat)
    }
}

fn digit_str(d: u32) -> (r: &'static str)
    requires
        d < 10,
    ensures
        r@ == seq![digit_char(d as nat)],
{
    let r: &'static str = if d == 0 {
        "0"
    } else if d == 1 {
        "1"
    } else if d == 2 {
        "2"
    } else if d == 3 {
        "3"
    } else if d == 4 {
        "4"
    } else if d == 5 {
        "5"
    } else if d == 6 {
        "6"
    } else if d == 7 {
        "7"
    } else if d == 8 {
        "8"
    } else {
        "9"
    };
    proof {
        reveal_strlit("0");
        reveal_strlit("1");
        reveal_strlit("2");
        reveal_strlit("3");
        reveal_strlit("4");
        reveal_strlit("5");
        reveal_strlit("6");
        reveal_strlit("7");
        reveal_strlit("8");
        reveal_strlit("9");
        assert(r@ =~= seq![digit_char(d as nat)]);
    }
    r
}

/// Appends the decimal digits of `n` to `out`.
pub fn push_u32(out: &mut String, n: u32)
    ensures
        final(out)@ == old(out)@ + dec_digits(n as nat),
    decreases n,
{
    if n < 10 {
        out.append(digit_str(n));
    } else {
        push_u32(out, n / 10);
        out.append(digit_str(n % 10));
        proof {
            assert(out@ =~= old(out)@ + dec_digits(n as nat));
        }
    }
}

/// Appends the decimal rendering of `n` to `out`, with a sign if negative.
pub fn push_i32(out: &mut String, n: i32)
    ensures
        final(out)@ == old(out)@ + dec_int(n as int),
{
    if n >= 0 {
        push_u32(out, n as u32);
    } else {
        out.append("-");
        let magnitude: u32 = (-(n as i64)) as u32;
        push_u32(out, magnitude);
        proof {
            reveal_strlit("-");
            assert("-"@ =~= seq!['-']);
            assert(out@ =~= old(out)@ + dec_int(n as int));
        }
    }
}

// ------------------------------------------------------------------------
// the grammar, as spec functions
// ------------------------------------------------------------------------

/// The fixed grammar keyword for a shown attribute.
pub open spec fn show_keyword(s: Show) -> Seq<char> {
    match s {
        Show::Mode => "MODE"@,
        Show::Nlink => "NLINK"@,
        Show::FileSize => "FILE_SIZE"@,
        Show::KbAllocated => "KB_ALLOCATED"@,
    }
}

/// One shown attribute, wrapped in `VARCHAR(...)`.
pub open spec fn varchar_text(s: Show) -> Seq<char> {
    "VARCHAR("@ + show_keyword(s) + ")"@
}

/// All shown attributes in input order, joined by the literal separator
/// <code> || ' ' || </code>.
pub open spec fn show_join(s: Seq<Show>) -> Seq<char>
    decreases s.len(),
{
    if s.len() == 0 {
        Seq::empty()
    } else if s.len() == 1 {
        varchar_text(s[0])
    } else {
        show_join(s.drop_last()) + " || ' ' || "@ + varchar_text(s.last())
    }
}

/// The `SHOW(...)` line: present iff the attribute list is non-empty.
pub open spec fn show_text(s: Seq<Show>) -> Seq<char> {
    if s.len() == 0 {
        Seq::empty()
    } else {
        "  SHOW("@ + show_join(s) + ")\n"@
    }
}

/// The `DIRECTORIES_PLUS` line: present iff the flag is set.
pub open spec fn directories_plus_text(dp: DirectoriesPlus) -> Seq<char> {
    if dp.0 {
        "  DIRECTORIES_PLUS\n"@
    } else {
        Seq::empty()
    }
}

/// The filter condition, without the `WHERE ` prefix.
pub open spec fn where_text(w: Where) -> Seq<char> {
    match w {
        Where::Group(group) => "GROUP_ID = "@ + dec_digits(group as nat),
        Where::User(user) => "USER_ID = "@ + dec_digits(user as nat),
    }
}

/// The `WHERE ...` line: present iff a filter is present.
pub open spec fn filter_text(f: Option<Where>) -> Seq<char> {
    match f {
        Some(w) => "  WHERE "@ + where_text(w) + "\n"@,
        None => Seq::empty(),
    }
}

/// The body of a rule, below its header line.
pub open spec fn rule_type_text(k: RuleType) -> Seq<char> {
    match k {
        RuleType::ExternalList(name, cmd) => {
            "  EXTERNAL LIST '"@ + name.0@ + "'\n  EXEC '"@ + cmd.0@ + "'\n"@
        },
        RuleType::List(name, dp, show, filter) => {
            "  LIST '"@ + name.0@ + "'\n"@ + directories_plus_text(dp) + show_text(show@)
                + filter_text(filter)
        },
    }
}

/// The rule header: `RULE` alone, or `RULE '<label>'` with a label. The
/// label is wrapped in single quotes with no escaping performed.
pub open spec fn rule_header_text(label: Option<Name>) -> Seq<char> {
    match label {
        Some(name) => "RULE '"@ + name.0@ + "'\n"@,
        None => "RULE\n"@,
    }
}

/// One full rule block: header and body.
pub open spec fn rule_text(r: Rule) -> Seq<char> {
    rule_header_text(r.0) + rule_type_text(r.1)
}

/// All rule blocks in order, separated by exactly one blank line: no rules
/// render as empty text, and no separator leads or trails the document.
pub open spec fn rules_text(rules: Seq<Rule>) -> Seq<char>
    decreases rules.len(),
{
    if rules.len() == 0 {
        Seq::empty()
    } else if rules.len() == 1 {
        rule_text(rules[0])
    } else {
        rules_text(rules.drop_last()) + "\n"@ + rule_text(rules.last())
    }
}

/// The full rendering of a policy.
pub open spec fn policy_text(p: Policy) -> Seq<char> {
    rules_text(p.rules@)
}

// ------------------------------------------------------------------------
// the serializer
// ------------------------------------------------------------------------

impl Show {
    /// The fixed grammar keyword for this attribute.
    pub fn as_str(&self) -> (r: &'static str)
        ensures
            r@ == show_keyword(*self),
    {
        match self {
            Show::Mode => "MODE",
            Show::Nlink => "NLINK",
            Show::FileSize => "FILE_SIZE",
            Show::KbAllocated => "KB_ALLOCATED",
        }
    }
}

fn push_show_join(out: &mut String, show: &Vec<Show>)
    ensures
        final(out)@ == old(out)@ + show_join(show@),
{
    let mut i: usize = 0;
    while i < show.len()
        invariant
            i <= show@.len(),
            out@ == old(out)@ + show_join(show@.take(i as int)),
        decreases show@.len() - i,
    {
        if i > 0 {
            out.append(" || ' ' || ");
        }
        out.append("VARCHAR(");
        out.append(show[i].as_str());
        out.append(")");
        proof {
            assert(show@.take(i + 1).drop_last() =~= show@.take(i as int));
            assert(show@.take(i + 1).last() == show@[i as int]);
            assert(out@ =~= old(out)@ + show_join(show@.take(i + 1)));
        }
        i += 1;
    }
    proof {
        assert(show@.take(show@.len() as int) =~= show@);
    }
}

impl RuleType {
    #[verifier::rlimit(50)]
    fn write(&self, out: &mut String)
        ensures
            final(out)@ == old(out)@ + rule_type_text(*self),
    {
        match self {
            RuleType::ExternalList(name, cmd) => {
                out.append("  EXTERNAL LIST '");
                out.append(name.0.as_str());
                out.append("'\n  EXEC '");
                out.append(cmd.0.as_str());
                out.append("'\n");
                proof {
                    assert(out@ =~= old(out)@ + rule_type_text(*self));
                }
            },
            RuleType::List(name, dp, show, filter) => {
                out.append("  LIST '");
                out.append(name.0.as_str());
                out.append("'\n");
                proof {
                    assert(out@ =~= old(out)@ + ("  LIST '"@ + name.0@ + "'\n"@));
                }
                let ghost after_header = out@;
                if dp.0 {
                    out.append("  DIRECTORIES_PLUS\n");
                }
                proof {
                    assert(out@ == after_header + directories_plus_text(*dp));
                }
                let ghost after_dp = out@;
                if show.len() > 0 {
                    out.append("  SHOW(");
                    push_show_join(out, show);
                    out.append(")\n");
                    proof {
                        assert(out@ =~= after_dp + show_text(show@));
                    }
                }
                proof {
                    assert(out@ == after_dp + show_text(show@));
                }
                let ghost after_show = out@;
                match filter {
                    Some(w) => {
                        out.append("  WHERE ");
                        match w {
                            Where::Group(group) => {
                                out.append("GROUP_ID = ");
                                push_u32(out, *group);
                            },
                            Where::User(user) => {
                                out.append("USER_ID = ");
                                push_u32(out, *user);
                            },
                        }
                        out.append("\n");
                        proof {
                            assert(out@ =~= after_show + filter_text(*filter));
                        }
                    },
                    None => {},
                }
                proof {
                    assert(out@ == after_show + filter_text(*filter));
                    assert(out@ =~= old(out)@ + rule_type_text(*self));
                }
            },
        }
    }
}

impl Rule {
    fn write(&self, out: &mut String)
        ensures
            final(out)@ == old(out)@ + rule_text(*self),
    {
        match &self.0 {
            Some(name) => {
                out.append("RULE '");
                out.append(name.0.as_str());
                out.append("'\n");
            },
            None => {
                out.append("RULE\n");
            },
        }
        self.1.write(out);
        proof {
            assert(out@ =~= old(out)@ + rule_text(*self));
        }
    }
}

impl Policy {
    /// Appends the rendering of the policy to `output`.
    ///
    /// The appended text is exactly [`policy_text`] of the policy: each rule
    /// in sequence, separated by exactly one blank line, with no leading or
    /// trailing blank line around the whole document. Serialization performs
    /// no validation and cannot fail.
    pub fn write(&self, output: &mut String)
        ensures
            final(output)@ == old(output)@ + policy_text(*self),
    {
        let mut i: usize = 0;
        while i < self.rules.len()
            invariant
                i <= self.rules@.len(),
                output@ == old(output)@ + rules_text(self.rules@.take(i as int)),
            decreases self.rules@.len() - i,
        {
            if i > 0 {
                output.append("\n");
            }
            let rule = &self.rules[i];
            rule.write(output);
            proof {
                assert(self.rules@.take(i + 1).drop_last() =~= self.rules@.take(i as int));
                assert(self.rules@.take(i + 1).last() == self.rules@[i as int]);
                assert(output@ =~= old(output)@ + rules_text(self.rules@.take(i + 1)));
            }
            i += 1;
        }
        proof {
            assert(self.rules@.take(self.rules@.len() as int) =~= self.rules@);
        }
    }

    /// Returns the rendering of the policy as a fresh string.
    pub fn to_text(&self) -> (r: String)
        ensures
            r@ == policy_text(*self),
    {
        let mut out = String::new();
        self.write(&mut out);
        out
    }
}

// ------------------------------------------------------------------------
// laws of the rendering
// ------------------------------------------------------------------------

/// The decimal digits of a value are never empty and never end in a newline.
pub proof fn lemma_dec_digits_last(n: nat)
    ensures
        dec_digits(n).len() >= 1,
        dec_digits(n).last() != '\n',
{
}

proof fn lemma_concat_tail2(a: Seq<char>, b: Seq<char>)
    requires
        b.len() >= 2,
    ensures
        (a + b).len() >= 2,
        (a + b).last() == b.last(),
        (a + b)[(a + b).len() - 2] == b[b.len() - 2],
{
}

proof fn lemma_concat_tail1(a: Seq<char>, b: Seq<char>)
    requires
        b.len() == 1,
        a.len() >= 1,
    ensures
        (a + b).len() >= 2,
        (a + b).last() == b[0],
        (a + b)[(a + b).len() - 2] == a.last(),
{
}

/// Every rule body ends with exactly one newline: its last character is a
/// newline and the one before is not, so a rule never ends in a blank line.
pub proof fn lemma_rule_type_text_shape(k: RuleType)
    ensures
        rule_type_text(k).len() >= 2,
        rule_type_text(k).last() == '\n',
        rule_type_text(k)[rule_type_text(k).len() - 2] != '\n',
{
    match k {
        RuleType::ExternalList(name, cmd) => {
            reveal_strlit("'\n");
            lemma_concat_tail2(
                "  EXTERNAL LIST '"@ + name.0@ + "'\n  EXEC '"@ + cmd.0@,
                "'\n"@,
            );
            assert(rule_type_text(k) == ("  EXTERNAL LIST '"@ + name.0@ + "'\n  EXEC '"@ + cmd.0@)
                + "'\n"@);
        },
        RuleType::List(name, dp, show, filter) => {
            reveal_strlit("  LIST '");
            reveal_strlit("'\n");
            reveal_strlit("  DIRECTORIES_PLUS\n");
            reveal_strlit(")\n");
            reveal_strlit("  SHOW(");
            reveal_strlit("  WHERE ");
            reveal_strlit("GROUP_ID = ");
            reveal_strlit("USER_ID = ");
            reveal_strlit("\n");
            let header = "  LIST '"@ + name.0@ + "'\n"@;
            lemma_concat_tail2("  LIST '"@ + name.0@, "'\n"@);
            let with_dp = header + directories_plus_text(dp);
            if dp.0 {
                lemma_concat_tail2(header, "  DIRECTORIES_PLUS\n"@);
            } else {
                assert(with_dp =~= header);
            }
            assert(with_dp.len() >= 2 && with_dp.last() == '\n' && with_dp[with_dp.len() - 2]
                != '\n');
            let with_show = with_dp + show_text(show@);
            if show@.len() > 0 {
                lemma_concat_tail2(with_dp + "  SHOW("@ + show_join(show@), ")\n"@);
                assert(with_show =~= (with_dp + "  SHOW("@ + show_join(show@)) + ")\n"@);
            } else {
                assert(with_show =~= with_dp);
            }
            assert(with_show.len() >= 2 && with_show.last() == '\n' && with_show[with_show.len()
                - 2] != '\n');
            let full = with_show + filter_text(filter);
            match filter {
                Some(w) => {
                    match w {
                        Where::Group(group) => {
                            lemma_dec_digits_last(group as nat);
                        },
                        Where::User(user) => {
                            lemma_dec_digits_last(user as nat);
                        },
                    }
                    assert(where_text(w).len() >= 1 && where_text(w).last() != '\n');
                    lemma_concat_tail1("  WHERE "@ + where_text(w), "\n"@);
                    lemma_concat_tail2(with_show, "  WHERE "@ + where_text(w) + "\n"@);
                },
                None => {
                    assert(full =~= with_show);
                },
            }
            assert(rule_type_text(k) == full);
        },
    }
}

/// Every rule block starts with an `R` (the header keyword `RULE`), ends
/// with exactly one newline, and never ends in a blank line.
pub proof fn lemma_rule_text_shape(r: Rule)
    ensures
        rule_text(r).len() >= 2,
        rule_text(r)[0] == 'R',
        rule_text(r).last() == '\n',
        rule_text(r)[rule_text(r).len() - 2] != '\n',
{
    lemma_rule_type_text_shape(r.1);
    reveal_strlit("RULE '");
    reveal_strlit("RULE\n");
    lemma_concat_tail2(rule_header_text(r.0), rule_type_text(r.1));
    assert(rule_header_text(r.0).len() >= 1 && rule_header_text(r.0)[0] == 'R');
}

/// Serializing an empty-rule policy yields empty output.
pub proof fn lemma_empty_policy_renders_empty(p: Policy)
    requires
        p.rules@.len() == 0,
    ensures
        policy_text(p) == Seq::<char>::empty(),
{
}

/// Between any two consecutive rules stands exactly one blank line: the
/// rendering of `n` rules is the rendering of the first `n - 1`, one extra
/// newline (the blank line, since every rule block already ends in one
/// newline), and the last rule's block.
pub proof fn lemma_one_blank_line_between_rules(rules: Seq<Rule>)
    requires
        rules.len() >= 2,
    ensures
        rules_text(rules) == rules_text(rules.drop_last()) + "\n"@ + rule_text(rules.last()),
{
}

/// The rendered document never leads or trails with a blank line: it starts
/// with a rule header and ends with the single newline of its last rule
/// line.
pub proof fn lemma_no_leading_or_trailing_blank_line(rules: Seq<Rule>)
    requires
        rules.len() > 0,
    ensures
        rules_text(rules).len() >= 2,
        rules_text(rules)[0] == 'R',
        rules_text(rules).last() == '\n',
        rules_text(rules)[rules_text(rules).len() - 2] != '\n',
    decreases rules.len(),
{
    if rules.len() == 1 {
        lemma_rule_text_shape(rules[0]);
    } else {
        lemma_no_leading_or_trailing_blank_line(rules.drop_last());
        lemma_rule_text_shape(rules.last());
        lemma_concat_tail2(rules_text(rules.drop_last()) + "\n"@, rule_text(rules.last()));
    }
}

/// Serialization is deterministic: the rendered text is a function of the
/// policy value alone, so equal policies render byte-identically.
pub proof fn lemma_serialization_deterministic(a: Policy, b: Policy)
    requires
        a == b,
    ensures
        policy_text(a) == policy_text(b),
{
}

/// For any list rule, the `SHOW(...)` line is emitted iff `show` is
/// non-empty, and joins the attributes' fixed keywords in input order with
/// the literal separator <code> || ' ' || </code>.
pub proof fn lemma_show_line_iff(
    name: Name,
    dp: DirectoriesPlus,
    show: Vec<Show>,
    filter: Option<Where>,
)
    ensures
        rule_type_text(RuleType::List(name, dp, show, filter)) == "  LIST '"@ + name.0@ + "'\n"@
            + directories_plus_text(dp) + show_text(show@) + filter_text(filter),
        show@.len() == 0 ==> show_text(show@) == Seq::<char>::empty(),
        show@.len() > 0 ==> show_text(show@) == "  SHOW("@ + show_join(show@) + ")\n"@,
        show@.len() == 1 ==> show_join(show@) == varchar_text(show@[0]),
        show@.len() >= 2 ==> show_join(show@) == show_join(show@.drop_last()) + " || ' ' || "@
            + varchar_text(show@.last()),
{
}

/// For any list rule, `DIRECTORIES_PLUS` appears iff the flag is true, and
/// the `WHERE` line appears iff a filter is present, rendering
/// `GROUP_ID = <n>` for group filters and `USER_ID = <n>` for user filters.
pub proof fn lemma_optional_lines_iff(dp: DirectoriesPlus, group: u32, user: u32)
    ensures
        dp.0 ==> directories_plus_text(dp) == "  DIRECTORIES_PLUS\n"@,
        !dp.0 ==> directories_plus_text(dp) == Seq::<char>::empty(),
        filter_text(Option::<Where>::None) == Seq::<char>::empty(),
        filter_text(Some(Where::Group(group))) == "  WHERE GROUP_ID = "@ + dec_digits(group as nat)
            + "\n"@,
        filter_text(Some(Where::User(user))) == "  WHERE USER_ID = "@ + dec_digits(user as nat)
            + "\n"@,
{
    reveal_strlit("  WHERE ");
    reveal_strlit("GROUP_ID = ");
    reveal_strlit("USER_ID = ");
    reveal_strlit("  WHERE GROUP_ID = ");
    reveal_strlit("  WHERE USER_ID = ");
    assert("  WHERE "@ + "GROUP_ID = "@ =~= "  WHERE GROUP_ID = "@);
    assert("  WHERE "@ + "USER_ID = "@ =~= "  WHERE USER_ID = "@);
    assert(filter_text(Some(Where::Group(group))) =~= "  WHERE GROUP_ID = "@ + dec_digits(
        group as nat,
    ) + "\n"@);
    assert(filter_text(Some(Where::User(user))) =~= "  WHERE USER_ID = "@ + dec_digits(user as nat)
        + "\n"@);
}

} // verus!

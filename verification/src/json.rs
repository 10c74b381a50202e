//! The JSON body builder for bucket creation: string escaping and the
//! exact wire body `{"orgID":...,"name":...,"retentionRules":[...]}`.

use vstd::prelude::*;

use crate::models::{PostBucketRequest, RetentionRule};
use crate::text::{
    chars_to_string, dec_digits, hex_char, hex_char_exec, join_with, lemma_join_with_snoc,
    push_dec_u64, push_str_chars,
};

verus! {

/// The JSON escaping of one character: quotes, backslashes and control
/// characters are escaped, every other character stands for itself.
pub open spec fn json_escaped_char(c: char) -> Seq<char> {
    if c == '"' {
        seq!['\\', '"']
    } else if c == '\\' {
        seq!['\\', '\\']
    } else if c == '\n' {
        seq!['\\', 'n']
    } else if c == '\r' {
        seq!['\\', 'r']
    } else if c == '\t' {
        seq!['\\', 't']
    } else if c as u32 == 8 {
        seq!['\\', 'b']
    } else if c as u32 == 12 {
        seq!['\\', 'f']
    } else if (c as u32) < 32 {
        seq!['\\', 'u', '0', '0', hex_char((c as u32 / 16) as u8), hex_char((c as u32 % 16) as u8)]
    } else {
        seq![c]
    }
}

/// The JSON escaping of a string.
pub open spec fn json_escaped(s: Seq<char>) -> Seq<char>
    decreases s.len(),
{
    if s.len() == 0 {
        seq![]
    } else {
        json_escaped_char(s[0]) + json_escaped(s.drop_first())
    }
}

proof fn lemma_json_escaped_snoc(s: Seq<char>, c: char)
    ensures
        json_escaped(s.push(c)) == json_escaped(s) + json_escaped_char(c),
    decreases s.len(),
{
    if s.len() == 0 {
        assert(s.push(c)[0] == c);
        assert(s.push(c).drop_first() =~= Seq::<char>::empty());
        assert(json_escaped(Seq::<char>::empty()) =~= Seq::<char>::empty());
        assert(json_escaped(s) =~= Seq::<char>::empty());
        assert(json_escaped(s.push(c)) =~= json_escaped(s) + json_escaped_char(c));
    } else {
        assert(s.push(c).drop_first() =~= s.drop_first().push(c));
        lemma_json_escaped_snoc(s.drop_first(), c);
        assert(json_escaped(s.push(c)) =~= json_escaped(s) + json_escaped_char(c));
    }
}

/// Appends the JSON escaping of `s` to `out`.
pub fn push_json_escaped(out: &mut Vec<char>, s: &str)
    ensures
        final(out)@ == old(out)@ + json_escaped(s@),
{
    let n = s.unicode_len();
    let mut i: usize = 0;
    while i < n
        invariant
            i <= n,
            n == s@.len(),
            out@ == old(out)@ + json_escaped(s@.take(i as int)),
        decreases n - i,
    {
        let c = s.get_char(i);
        if c == '"' {
            out.push('\\');
            out.push('"');
        } else if c == '\\' {
            out.push('\\');
            out.push('\\');
        } else if c == '\n' {
            out.push('\\');
            out.push('n');
        } else if c == '\r' {
            out.push('\\');
            out.push('r');
        } else if c == '\t' {
            out.push('\\');
            out.push('t');
        } else if c as u32 == 8 {
            out.push('\\');
            out.push('b');
        } else if c as u32 == 12 {
            out.push('\\');
            out.push('f');
        } else if (c as u32) < 32 {
            out.push('\\');
            out.push('u');
            out.push('0');
            out.push('0');
            out.push(hex_char_exec((c as u32 / 16) as u8));
            out.push(hex_char_exec((c as u32 % 16) as u8));
        } else {
            out.push(c);
        }
        proof {
            lemma_json_escaped_snoc(s@.take(i as int), c);
            assert(s@.take(i as int + 1) =~= s@.take(i as int).push(c));
        }
        i = i + 1;
    }
    assert(s@.take(n as int) =~= s@);
}

/// The JSON object for one retention rule.
pub open spec fn retention_rule_json(r: RetentionRule) -> Seq<char> {
    "{\"type\":\"expire\",\"everySeconds\":"@ + dec_digits(r.every_seconds as nat) + "}"@
}

/// The JSON array contents for a sequence of retention rules.
pub open spec fn retention_rules_json(rs: Seq<RetentionRule>) -> Seq<char> {
    join_with(rs.map_values(|r: RetentionRule| retention_rule_json(r)), ',')
}

/// The bucket creation body for the given field values.
pub open spec fn post_bucket_json(org_id: Seq<char>, bucket_name: Seq<char>, rules: Seq<
    RetentionRule,
>) -> Seq<char> {
    "{\"orgID\":\""@ + json_escaped(org_id) + "\",\"name\":\""@ + json_escaped(bucket_name)
        + "\",\"retentionRules\":["@ + retention_rules_json(rules) + "]}"@
}

/// The bucket creation body of a request value.
pub open spec fn post_bucket_body(r: PostBucketRequest) -> Seq<char> {
    post_bucket_json(r.org_id@, r.name@, r.retention_rules@)
}

/// Serializes a bucket creation request into its exact JSON wire body.
pub fn encode_post_bucket(r: &PostBucketRequest) -> (s: String)
    ensures
        s@ == post_bucket_body(*r),
{
    let mut out: Vec<char> = Vec::new();
    push_str_chars(&mut out, "{\"orgID\":\"");
    push_json_escaped(&mut out, r.org_id.as_str());
    push_str_chars(&mut out, "\",\"name\":\"");
    push_json_escaped(&mut out, r.name.as_str());
    push_str_chars(&mut out, "\",\"retentionRules\":[");
    let ghost prefix = out@;
    let ghost rules = r.retention_rules@;
    let ghost f = |x: RetentionRule| retention_rule_json(x);
    let n = r.retention_rules.len();
    let mut i: usize = 0;
    while i < n
        invariant
            i <= n,
            n == rules.len(),
            rules == r.retention_rules@,
            f == (|x: RetentionRule| retention_rule_json(x)),
            out@ == prefix + join_with(rules.take(i as int).map_values(f), ','),
        decreases n - i,
    {
        proof {
            lemma_join_with_snoc(
                rules.take(i as int).map_values(f),
                retention_rule_json(rules[i as int]),
                ',',
            );
            assert(rules.take(i as int + 1).map_values(f) =~= rules.take(i as int).map_values(
                f,
            ).push(retention_rule_json(rules[i as int])));
        }
        if i > 0 {
            out.push(',');
        }
        let rule = r.retention_rules[i];
        push_str_chars(&mut out, "{\"type\":\"expire\",\"everySeconds\":");
        push_dec_u64(&mut out, rule.every_seconds);
        push_str_chars(&mut out, "}");
        proof {
            assert(out@ =~= prefix + join_with(rules.take(i as int + 1).map_values(f), ','));
        }
        i = i + 1;
    }
    proof {
        assert(rules.take(n as int) =~= rules);
    }
    push_str_chars(&mut out, "]}");
    proof {
        assert(out@ =~= post_bucket_body(*r));
    }
    chars_to_string(out)
}

} // verus!

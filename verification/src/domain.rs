//! Splitting a fully-qualified domain into its sub-domain label and its root
//! domain. The root is always the last two labels: multi-label public
//! suffixes such as `co.uk` are not recognised.

use crate::error::{DnsError, DnsErrorView};
use crate::text::{
    join_with, last_index_of, lemma_last_index_of, lemma_split_last_two, lemma_split_len,
    lemma_split_tail, scan_separators, split_on,
};
use vstd::prelude::*;

verus! {

/// The dot-separated labels of a domain.
pub open spec fn labels(domain: Seq<char>) -> Seq<Seq<char>> {
    split_on(domain, '.')
}

/// The label that stands for the root domain itself.
pub open spec fn root_label() -> Seq<char> {
    seq!['@']
}

/// Whether the domain starts with `@.`, the explicit mark of a root domain.
pub open spec fn has_root_marker(domain: Seq<char>) -> bool {
    domain.len() >= 2 && domain[0] == '@' && domain[1] == '.'
}

/// The (label, root) pair of a domain, or `None` where the domain has fewer
/// than two labels.
pub open spec fn split_domain(domain: Seq<char>) -> Option<(Seq<char>, Seq<char>)> {
    let parts = labels(domain);
    if parts.len() < 2 {
        None
    } else if has_root_marker(domain) {
        Some((root_label(), domain.skip(2)))
    } else if parts.len() == 2 {
        Some((root_label(), domain))
    } else {
        Some(
            (
                join_with(parts.take(parts.len() - 2), seq!['.']),
                join_with(parts.skip(parts.len() - 2), seq!['.']),
            ),
        )
    }
}

/// The root domain that a record name belongs to: its last two labels, or the
/// whole name where it has fewer than two.
pub open spec fn zone_name(record_name: Seq<char>) -> Seq<char> {
    let parts = labels(record_name);
    if parts.len() >= 2 {
        parts[parts.len() - 2] + seq!['.'] + parts[parts.len() - 1]
    } else {
        record_name
    }
}

/// What `parse_domain` returns for a domain, over views.
pub open spec fn parse_domain_result(domain: Seq<char>) -> Result<
    (Seq<char>, Seq<char>),
    DnsErrorView,
> {
    match split_domain(domain) {
        Some(pair) => Ok(pair),
        None => Err(DnsErrorView::InvalidDomainFormat { domain }),
    }
}

/// The view of a result of `parse_domain`.
pub open spec fn parsed_view(r: Result<(String, String), DnsError>) -> Result<
    (Seq<char>, Seq<char>),
    DnsErrorView,
> {
    match r {
        Ok((label, root)) => Ok((label@, root@)),
        Err(e) => Err(e@),
    }
}

/// Splits a fully-qualified domain into (label, root). The root is the last
/// two labels joined by a dot and the label is everything before them, or `@`
/// where nothing precedes them. A leading `@.` marks a root domain and is
/// stripped. A domain without a dot is rejected.
pub fn parse_domain(full_domain: &str) -> (r: Result<(String, String), DnsError>)
    ensures
        parsed_view(r) == parse_domain_result(full_domain@),
{
    let scan = scan_separators(full_domain, '.');
    proof {
        lemma_split_len(full_domain@, '.');
        lemma_last_index_of(full_domain@, '.');
    }
    match scan.last {
        None => Err(DnsError::InvalidDomainFormat { domain: String::from_str(full_domain) }),
        Some(last) => {
            proof {
                lemma_split_last_two(full_domain@, '.');
                reveal_strlit("@");
                assert("@"@ == root_label());
                assert(full_domain@.subrange(2, scan.len as int) == full_domain@.skip(2));
            }
            let marked = scan.len >= 2 && full_domain.get_char(0) == '@' && full_domain.get_char(1)
                == '.';
            if marked {
                let root = full_domain.substring_char(2, scan.len);
                Ok((String::from_str("@"), String::from_str(root)))
            } else {
                match scan.prev {
                    None => Ok((String::from_str("@"), String::from_str(full_domain))),
                    Some(prev) => {
                        proof {
                            lemma_split_tail(full_domain@, '.');
                            assert(full_domain@.subrange(0, prev as int) == full_domain@.take(
                                prev as int,
                            ));
                            assert(full_domain@.subrange(prev + 1, scan.len as int)
                                == full_domain@.skip(prev + 1));
                        }
                        let label = full_domain.substring_char(0, prev);
                        let root = full_domain.substring_char(prev + 1, scan.len);
                        Ok((String::from_str(label), String::from_str(root)))
                    },
                }
            }
        },
    }
}

/// A domain of exactly two labels that does not start with `@.` is its own
/// root, under the label `@`.
pub proof fn law_two_labels_are_a_root(domain: Seq<char>)
    requires
        labels(domain).len() == 2,
        !has_root_marker(domain),
    ensures
        split_domain(domain) == Some((root_label(), domain)),
{
}

/// A domain that starts with `@.` always splits, into the label `@` and what
/// follows the mark.
pub proof fn law_root_marker_is_stripped(domain: Seq<char>)
    requires
        has_root_marker(domain),
    ensures
        split_domain(domain) == Some((root_label(), domain.skip(2))),
{
    lemma_last_index_of(domain, '.');
    lemma_split_len(domain, '.');
}

/// A domain of more than two labels splits into its first labels, joined by
/// dots, and its last two labels, joined by a dot. This holds of a domain that
/// starts with `@.` only while it has three labels.
pub proof fn law_many_labels_split_before_last_two(domain: Seq<char>)
    requires
        labels(domain).len() > 2,
        has_root_marker(domain) ==> labels(domain).len() == 3,
    ensures
        split_domain(domain) == Some(
            (
                join_with(labels(domain).take(labels(domain).len() - 2), seq!['.']),
                join_with(labels(domain).skip(labels(domain).len() - 2), seq!['.']),
            ),
        ),
{
    if has_root_marker(domain) {
        lemma_split_len(domain, '.');
        lemma_last_index_of(domain, '.');
        lemma_split_last_two(domain, '.');
        lemma_split_tail(domain, '.');
        let last = last_index_of(domain, '.');
        let prev = last_index_of(domain.take(last), '.');
        lemma_last_index_of(domain.take(last), '.');
        lemma_split_len(domain.take(prev), '.');
        lemma_last_index_of(domain.take(prev), '.');
        if prev > 1 {
            assert(domain.take(prev)[1] == '.');
        }
        assert(domain.take(last)[prev] == '.');
        assert(prev == 1);
        assert(domain.take(1) == root_label());
    }
}

/// A domain splits exactly when it contains a dot.
pub proof fn law_splits_iff_dotted(domain: Seq<char>)
    ensures
        split_domain(domain) is Some <==> domain.contains('.'),
{
    lemma_last_index_of(domain, '.');
    lemma_split_len(domain, '.');
    if domain.contains('.') {
        let j = choose|j: int| 0 <= j < domain.len() && domain[j] == '.';
        assert(last_index_of(domain, '.') >= j);
    } else if last_index_of(domain, '.') >= 0 {
        assert(domain.contains(domain[last_index_of(domain, '.')]));
    }
}

/// Splitting a domain that does not start with `@.` and has more than two
/// labels loses nothing: the label, a dot and the root give the domain back.
pub proof fn law_label_and_root_rejoin(domain: Seq<char>)
    requires
        labels(domain).len() > 2,
        !has_root_marker(domain),
    ensures
        split_domain(domain) matches Some((label, root)) && label + seq!['.'] + root == domain,
{
    lemma_split_len(domain, '.');
    lemma_last_index_of(domain, '.');
    lemma_split_last_two(domain, '.');
    lemma_split_tail(domain, '.');
    let last = last_index_of(domain, '.');
    let prev = last_index_of(domain.take(last), '.');
    lemma_last_index_of(domain.take(last), '.');
    assert(domain.take(last)[prev] == '.');
    assert(domain.take(prev) + seq!['.'] + domain.skip(prev + 1) == domain);
}

/// The root of a domain that does not start with `@.` is the zone name of the
/// domain: both are its last two labels.
pub proof fn law_root_is_zone_name(domain: Seq<char>)
    requires
        labels(domain).len() >= 2,
        !has_root_marker(domain),
    ensures
        split_domain(domain) matches Some((label, root)) && root == zone_name(domain),
{
    lemma_split_len(domain, '.');
    lemma_last_index_of(domain, '.');
    lemma_split_last_two(domain, '.');
    if labels(domain).len() > 2 {
        lemma_split_tail(domain, '.');
    } else {
        assert(domain.skip(0) == domain);
    }
}

} // verus!

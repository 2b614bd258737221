//! The captive portal's DNS answer: every name resolves to the portal.

use vstd::prelude::*;

verus! {

/// Where the label sequence of a DNS question starting at `cursor` ends:
/// just past its terminating zero label, or at the end of the message if it
/// runs off it. `None` when a label length would overflow a `usize`.
pub open spec fn question_name_end(q: Seq<u8>, cursor: int) -> Option<int>
    decreases (if cursor < q.len() { q.len() - cursor } else { 0 }),
{
    if cursor < 0 || cursor >= q.len() {
        Some(cursor)
    } else if q[cursor] == 0 {
        Some(cursor + 1)
    } else if cursor + 1 + q[cursor] > usize::MAX {
        None
    } else {
        question_name_end(q, cursor + 1 + q[cursor])
    }
}

/// The big-endian 16-bit value at `i`.
pub open spec fn be16(q: Seq<u8>, i: int) -> int {
    q[i] * 256 + q[i + 1]
}

/// The answer record pointing the queried name at `ip` for sixty seconds.
pub open spec fn answer_record(ip: Seq<u8>) -> Seq<u8> {
    seq![0xC0u8, 0x0C, 0, 1, 0, 1, 0, 0, 0, 60, 0, 4] + ip
}

/// The response to `q`, or `None` for anything that is not a well-formed
/// query with at least one question.
///
/// The response echoes the query's identifier, sets the answer flags, keeps
/// the question count, answers only an A record of class IN (with `ip`) and
/// copies the first question back.
pub open spec fn dns_response(q: Seq<u8>, ip: Seq<u8>) -> Option<Seq<u8>> {
    if q.len() < 12 {
        None
    } else if be16(q, 4) == 0 {
        None
    } else {
        match question_name_end(q, 12) {
            None => None,
            Some(c) => if c + 4 > usize::MAX || c + 4 > q.len() {
                None
            } else {
                let answered = be16(q, c) == 1 && be16(q, c + 2) == 1;
                let header = q.subrange(0, 2) + seq![0x81u8, 0x80] + q.subrange(4, 6) + seq![
                    0u8,
                    if answered { 1u8 } else { 0u8 },
                    0,
                    0,
                    0,
                    0,
                ];
                Some(
                    header + q.subrange(12, c + 4) + if answered {
                        answer_record(ip)
                    } else {
                        Seq::empty()
                    },
                )
            },
        }
    }
}

fn extend_range(out: &mut Vec<u8>, src: &[u8], from: usize, to: usize)
    requires
        from <= to <= src@.len(),
    ensures
        final(out)@ == old(out)@ + src@.subrange(from as int, to as int),
{
    let ghost start = out@;
    let mut i = from;
    while i < to
        invariant
            from <= i <= to,
            to <= src@.len(),
            out@ == start + src@.subrange(from as int, i as int),
        decreases to - i,
    {
        out.push(src[i]);
        i = i + 1;
        assert(out@ =~= start + src@.subrange(from as int, i as int));
    }
}

fn extend_bytes(out: &mut Vec<u8>, src: &[u8])
    ensures
        final(out)@ == old(out)@ + src@,
{
    extend_range(out, src, 0, src.len());
    assert(src@.subrange(0, src@.len() as int) =~= src@);
}

/// Answers a captive-portal DNS query with the portal's address.
pub fn build_captive_dns_response(query: &[u8], portal_ip: [u8; 4]) -> (r: Option<Vec<u8>>)
    ensures
        match dns_response(query@, portal_ip@) {
            None => r is None,
            Some(bytes) => r matches Some(v) && v@ == bytes,
        },
        r matches Some(v) ==> {
            &&& v@.len() >= 12
            &&& v@[2] == 0x81 && v@[3] == 0x80
            &&& v@[4] == query@[4] && v@[5] == query@[5]
            &&& v@[6] == 0 && (v@[7] == 0 || v@[7] == 1)
            &&& v@[8] == 0 && v@[9] == 0 && v@[10] == 0 && v@[11] == 0
        },
{
    let len = query.len();
    if len < 12 {
        return None;
    }
    let question_count: u16 = query[4] as u16 * 256 + query[5] as u16;
    if question_count == 0 {
        return None;
    }
    let mut cursor: usize = 12;
    while cursor < len
        invariant_except_break
            question_name_end(query@, cursor as int) == question_name_end(query@, 12),
        invariant
            len == query@.len(),
            12 <= cursor,
        ensures
            question_name_end(query@, 12) == Some(cursor as int),
        decreases (if cursor < len { len - cursor } else { 0 }),
    {
        let label_len = query[cursor] as usize;
        cursor = cursor + 1;
        if label_len == 0 {
            break;
        }
        match cursor.checked_add(label_len) {
            Some(next) => {
                cursor = next;
            },
            None => {
                return None;
            },
        }
    }
    let cursor = cursor;
    assert(question_name_end(query@, 12) == Some(cursor as int));
    let question_end = match cursor.checked_add(4) {
        Some(end) => end,
        None => {
            return None;
        },
    };
    if question_end > len {
        return None;
    }
    let qtype: u16 = query[cursor] as u16 * 256 + query[cursor + 1] as u16;
    let qclass: u16 = query[cursor + 2] as u16 * 256 + query[cursor + 3] as u16;
    let answered = qtype == 1 && qclass == 1;
    let answer_count: u8 = if answered { 1 } else { 0 };
    let mut response: Vec<u8> = Vec::new();
    extend_range(&mut response, query, 0, 2);
    response.push(0x81);
    response.push(0x80);
    extend_range(&mut response, query, 4, 6);
    response.push(0);
    response.push(answer_count);
    response.push(0);
    response.push(0);
    response.push(0);
    response.push(0);
    extend_range(&mut response, query, 12, question_end);
    if answered {
        let record: [u8; 12] = [0xC0, 0x0C, 0, 1, 0, 1, 0, 0, 0, 60, 0, 4];
        extend_bytes(&mut response, &record);
        extend_bytes(&mut response, &portal_ip);
    }
    assert(response@ =~= dns_response(query@, portal_ip@)->Some_0);
    proof {
        lemma_response_header_counts(query@, portal_ip@);
    }
    Some(response)
}

/// Every response header carries the answer flags, the query's question
/// count, an answer count of zero or one, and zero authority and additional
/// records, whatever the query held in those fields; with one answer, the
/// response ends in the answer record for `ip`.
pub proof fn lemma_response_header_counts(q: Seq<u8>, ip: Seq<u8>)
    requires
        dns_response(q, ip) is Some,
    ensures
        ({
            let r = dns_response(q, ip)->Some_0;
            &&& r.len() >= 12
            &&& r[0] == q[0] && r[1] == q[1]
            &&& r[2] == 0x81 && r[3] == 0x80
            &&& r[4] == q[4] && r[5] == q[5]
            &&& r[6] == 0 && (r[7] == 0 || r[7] == 1)
            &&& r[8] == 0 && r[9] == 0 && r[10] == 0 && r[11] == 0
            &&& r[7] == 1 ==> r.len() >= 12 + 12 + ip.len() && r.subrange(
                r.len() - 12 - ip.len(),
                r.len() as int,
            ) == seq![0xC0u8, 0x0C, 0, 1, 0, 1, 0, 0, 0, 60, 0, 4] + ip
            &&& r[7] == 0 ==> (question_name_end(q, 12) matches Some(c) && r.len() == c + 4)
            &&& question_name_end(q, 12) matches Some(c) && r.subrange(12, c + 4) == q.subrange(
                12,
                c + 4,
            ) && (r[7] == 1 <==> (q[c] == 0 && q[c + 1] == 1 && q[c + 2] == 0 && q[c + 3] == 1))
        }),
{
    let r = dns_response(q, ip)->Some_0;
    let c = question_name_end(q, 12)->Some_0;
    let answered = be16(q, c) == 1 && be16(q, c + 2) == 1;
    let header = q.subrange(0, 2) + seq![0x81u8, 0x80] + q.subrange(4, 6) + seq![
        0u8,
        if answered { 1u8 } else { 0u8 },
        0,
        0,
        0,
        0,
    ];
    let tail = if answered { answer_record(ip) } else { Seq::empty() };
    assert(header.len() == 12);
    assert(r == header + q.subrange(12, c + 4) + tail);
    assert(forall|i: int| 0 <= i < 12 ==> r[i] == header[i]);
    assert(r[7] == 1 <==> answered);
    lemma_name_end_not_before(q, 12);
    assert(r.subrange(12, c + 4) =~= q.subrange(12, c + 4));
    if answered {
        assert(r.subrange(r.len() - 12 - ip.len(), r.len() as int) =~= answer_record(ip));
    } else {
        lemma_name_end_not_before(q, 12);
        assert(r.len() == c + 4);
    }
}

proof fn lemma_name_end_not_before(q: Seq<u8>, cursor: int)
    ensures
        question_name_end(q, cursor) matches Some(e) ==> e >= cursor,
    decreases (if cursor < q.len() { q.len() - cursor } else { 0 }),
{
    if 0 <= cursor < q.len() && q[cursor] != 0 && cursor + 1 + q[cursor] <= usize::MAX {
        lemma_name_end_not_before(q, cursor + 1 + q[cursor]);
    }
}

/// An A query of class IN with at least one question is answered with the
/// portal's address, which closes the response.
pub proof fn lemma_a_query_answered_with_portal(q: Seq<u8>, ip: Seq<u8>)
    requires
        dns_response(q, ip) is Some,
        ip.len() == 4,
        question_name_end(q, 12) matches Some(c) && be16(q, c) == 1 && be16(q, c + 2) == 1,
    ensures
        ({
            let r = dns_response(q, ip)->Some_0;
            &&& r.subrange(r.len() - 4, r.len() as int) == ip
            &&& r[7] == 1
            &&& r.subrange(0, 2) == q.subrange(0, 2)
        }),
{
    let r = dns_response(q, ip)->Some_0;
    assert(r.subrange(r.len() - 4, r.len() as int) =~= ip);
    assert(r.subrange(0, 2) =~= q.subrange(0, 2));
}

} // verus!

use vstd::prelude::*;

use crate::app::{AppMode, Panel};
use crate::history::HistoryEntry;
use crate::request::HeaderPart;
use crate::text::chars_of;

verus! {

/// How a status code is shown: success (2xx), redirection (3xx), or failure.
#[derive(Debug, Clone, Copy, PartialEq, Eq, Structural)]
pub enum StatusClass {
    Success,
    Redirect,
    Failure,
}

pub open spec fn status_class_of(status: u16) -> StatusClass {
    if 200 <= status <= 299 {
        StatusClass::Success
    } else if 300 <= status <= 399 {
        StatusClass::Redirect
    } else {
        StatusClass::Failure
    }
}

pub fn status_class(status: u16) -> (r: StatusClass)
    ensures
        r == status_class_of(status),
{
    if 200 <= status && status <= 299 {
        StatusClass::Success
    } else if 300 <= status && status <= 399 {
        StatusClass::Redirect
    } else {
        StatusClass::Failure
    }
}

/// A status is shown as a success exactly in 200..=299, as a redirection exactly in
/// 300..=399, and as a failure everywhere else (below 200 and from 400 up, every 5xx
/// among them).
pub proof fn law_status_classes(status: u16)
    ensures
        status_class_of(status) == StatusClass::Success <==> 200 <= status <= 299,
        status_class_of(status) == StatusClass::Redirect <==> 300 <= status <= 399,
        status_class_of(status) == StatusClass::Failure <==> (status < 200 || status > 399),
{
}

/// First row to show of a list scrolled so that row `selected` is on the last of
/// `visible` rows, or at the top when it fits.
pub open spec fn window_start_of(selected: int, visible: int) -> int {
    let back = if visible > 0 {
        visible - 1
    } else {
        0
    };
    if selected >= back {
        selected - back
    } else {
        0
    }
}

pub fn window_start(selected: usize, visible: usize) -> (r: usize)
    ensures
        r == window_start_of(selected as int, visible as int),
{
    selected.saturating_sub(visible.saturating_sub(1))
}

/// With room for at least one row, the selected row is always among those shown.
pub proof fn law_selected_row_is_shown(selected: nat, visible: nat)
    requires
        visible > 0,
    ensures
        window_start_of(selected as int, visible as int) <= selected < window_start_of(
            selected as int,
            visible as int,
        ) + visible,
{
}

/// What a history entry came to: a status code, a failure, or nothing recorded.
#[derive(Debug, Clone, Copy, PartialEq, Eq, Structural)]
pub enum Outcome {
    Status(u16),
    Failed,
    NoResponse,
}

pub fn entry_outcome(entry: &HistoryEntry) -> (r: Outcome)
    ensures
        r == (match entry@.response {
            Some(resp) => Outcome::Status(resp.status),
            None => if entry@.error is Some {
                Outcome::Failed
            } else {
                Outcome::NoResponse
            },
        }),
{
    match entry.response() {
        Some(response) => Outcome::Status(response.status()),
        None => if entry.error().is_some() {
            Outcome::Failed
        } else {
            Outcome::NoResponse
        },
    }
}

/// A panel is highlighted when it has the focus and the history is closed.
pub fn panel_highlighted(history_open: bool, focused: Panel, panel: Panel) -> (r: bool)
    ensures
        r == (!history_open && focused == panel),
{
    !history_open && focused == panel
}

/// A header column is highlighted when the table has the focus, the history is closed
/// and the column is selected.
pub fn header_part_highlighted(
    history_open: bool,
    focused: Panel,
    selected: HeaderPart,
    part: HeaderPart,
) -> (r: bool)
    ensures
        r == (!history_open && focused == Panel::Headers && selected == part),
{
    !history_open && focused == Panel::Headers && selected == part
}

/// The key help shown in the footer.
pub open spec fn footer_hint_of(mode: AppMode, panel: Panel, history_open: bool, leader_pending: bool) -> Seq<char> {
    if leader_pending {
        " leader: e historique  Esc annuler"@
    } else if history_open {
        " j/k choisir et previsualiser  Entree restaurer  Esc ou Espace+e fermer"@
    } else if mode == AppMode::Normal {
        if panel == Panel::Headers {
            " h/l key-value  j/k naviguer  i/Entree editer  [x] inclus [ ] nouveau [!] invalide"@
        } else {
            " hjkl naviguer  i/Entree editer  Tab suivant  Ctrl+S envoyer  Espace+e historique  q quitter"@
        }
    } else {
        match panel {
            Panel::Method => " j/k ou Haut/Bas choisir  Entree confirmer  Tab suivant  Esc normal"@,
            Panel::Headers => " Fleches curseur/champ/ligne  Tab/Entree suivant  Shift+Tab precedent  Ctrl+S envoyer  Esc normal"@,
            Panel::Body => " Fleches curseur  Entree nouvelle ligne  Home/End  Tab suivant  Ctrl+S envoyer  Esc normal"@,
            Panel::Url => " Gauche/Droite curseur  Home/End  Entree confirmer  Tab suivant  Ctrl+S envoyer  Esc normal"@,
            Panel::Response => " Esc normal"@,
        }
    }
}

pub fn footer_hint(mode: AppMode, panel: Panel, history_open: bool, leader_pending: bool) -> (r:
    &'static str)
    ensures
        r@ == footer_hint_of(mode, panel, history_open, leader_pending),
{
    if leader_pending {
        " leader: e historique  Esc annuler"
    } else if history_open {
        " j/k choisir et previsualiser  Entree restaurer  Esc ou Espace+e fermer"
    } else if mode == AppMode::Normal {
        if panel == Panel::Headers {
            " h/l key-value  j/k naviguer  i/Entree editer  [x] inclus [ ] nouveau [!] invalide"
        } else {
            " hjkl naviguer  i/Entree editer  Tab suivant  Ctrl+S envoyer  Espace+e historique  q quitter"
        }
    } else {
        match panel {
            Panel::Method => " j/k ou Haut/Bas choisir  Entree confirmer  Tab suivant  Esc normal",
            Panel::Headers => " Fleches curseur/champ/ligne  Tab/Entree suivant  Shift+Tab precedent  Ctrl+S envoyer  Esc normal",
            Panel::Body => " Fleches curseur  Entree nouvelle ligne  Home/End  Tab suivant  Ctrl+S envoyer  Esc normal",
            Panel::Url => " Gauche/Droite curseur  Home/End  Entree confirmer  Tab suivant  Ctrl+S envoyer  Esc normal",
            Panel::Response => " Esc normal",
        }
    }
}

/// Whether name `a` comes no later than name `b`: the order of `String`, which compares
/// code points one after the other, a prefix first.
pub open spec fn name_le(a: Seq<char>, b: Seq<char>) -> bool
    decreases a.len(),
{
    if a.len() == 0 {
        true
    } else if b.len() == 0 {
        false
    } else if a[0] != b[0] {
        (a[0] as u32) < (b[0] as u32)
    } else {
        name_le(a.drop_first(), b.drop_first())
    }
}

pub proof fn lemma_name_le_reflexive(a: Seq<char>)
    ensures
        name_le(a, a),
    decreases a.len(),
{
    if a.len() > 0 {
        lemma_name_le_reflexive(a.drop_first());
    }
}

pub proof fn lemma_name_le_total(a: Seq<char>, b: Seq<char>)
    ensures
        name_le(a, b) || name_le(b, a),
    decreases a.len(),
{
    if a.len() > 0 && b.len() > 0 && a[0] == b[0] {
        lemma_name_le_total(a.drop_first(), b.drop_first());
    } else if a.len() > 0 && b.len() > 0 {
        vstd::utf8::char_u32_cast(a[0], a[0] as u32);
        vstd::utf8::char_u32_cast(b[0], b[0] as u32);
    }
}

pub proof fn lemma_name_le_transitive(a: Seq<char>, b: Seq<char>, c: Seq<char>)
    requires
        name_le(a, b),
        name_le(b, c),
    ensures
        name_le(a, c),
    decreases a.len(),
{
    if a.len() > 0 && b.len() > 0 && c.len() > 0 {
        if a[0] == b[0] && b[0] == c[0] {
            lemma_name_le_transitive(a.drop_first(), b.drop_first(), c.drop_first());
        } else {
            vstd::utf8::char_u32_cast(a[0], a[0] as u32);
            vstd::utf8::char_u32_cast(b[0], b[0] as u32);
            vstd::utf8::char_u32_cast(c[0], c[0] as u32);
        }
    }
}

fn name_le_exec(a: &Vec<char>, b: &Vec<char>) -> (r: bool)
    ensures
        r == name_le(a@, b@),
{
    let mut i: usize = 0;
    assert(a@.skip(0) =~= a@);
    assert(b@.skip(0) =~= b@);
    while i < a.len() && i < b.len() && a[i] == b[i]
        invariant
            i <= a@.len(),
            i <= b@.len(),
            name_le(a@, b@) == name_le(a@.skip(i as int), b@.skip(i as int)),
        decreases a@.len() - i,
    {
        assert(a@.skip(i as int).drop_first() =~= a@.skip(i + 1));
        assert(b@.skip(i as int).drop_first() =~= b@.skip(i + 1));
        i = i + 1;
    }
    if i == a.len() {
        assert(a@.skip(i as int).len() == 0);
        true
    } else if i == b.len() {
        false
    } else {
        assert(a@.skip(i as int)[0] == a@[i as int]);
        assert(b@.skip(i as int)[0] == b@[i as int]);
        (a[i] as u32) < (b[i] as u32)
    }
}

/// An order of positions lists each of `0..n` exactly once.
pub open spec fn is_order_of(order: Seq<usize>, n: int) -> bool {
    &&& order.len() == n
    &&& forall|i: int| 0 <= i < n ==> order[i] < n
    &&& forall|i: int, j: int| 0 <= i < j < n ==> order[i] != order[j]
}

/// The positions listed by `order` come in order of name, and positions of equal names
/// keep their relative order.
pub open spec fn sorted_by_name(names: Seq<Seq<char>>, order: Seq<usize>) -> bool {
    &&& forall|i: int, j: int|
        0 <= i < j < order.len() ==> name_le(names[order[i] as int], names[order[j] as int])
    &&& forall|i: int, j: int|
        0 <= i < j < order.len() && names[order[i] as int] == names[order[j] as int] ==> order[i]
            < order[j]
}

pub open spec fn header_names(headers: Seq<(String, String)>) -> Seq<Seq<char>> {
    headers.map_values(|p: (String, String)| p.0@)
}

/// The order in which response headers are listed: by name, headers of the same name in
/// the order received.
pub fn header_order(headers: &[(String, String)]) -> (r: Vec<usize>)
    ensures
        is_order_of(r@, headers@.len() as int),
        sorted_by_name(header_names(headers@), r@),
{
    let n = headers.len();
    let ghost names = header_names(headers@);
    let mut keys: Vec<Vec<char>> = Vec::new();
    let mut k: usize = 0;
    while k < n
        invariant
            k <= n == headers@.len(),
            names == header_names(headers@),
            keys@.len() == k,
            forall|i: int| 0 <= i < k ==> #[trigger] keys@[i]@ == names[i],
        decreases n - k,
    {
        keys.push(chars_of(headers[k].0.as_str()));
        k = k + 1;
    }
    let mut order: Vec<usize> = Vec::new();
    let mut k: usize = 0;
    while k < n
        invariant
            k <= n == headers@.len() == keys@.len(),
            forall|i: int| 0 <= i < n ==> #[trigger] keys@[i]@ == names[i],
            is_order_of(order@, k as int),
            sorted_by_name(names, order@),
        decreases n - k,
    {
        let mut p: usize = 0;
        while p < order.len() && name_le_exec(&keys[order[p]], &keys[k])
            invariant
                k < n == keys@.len(),
                forall|i: int| 0 <= i < n ==> #[trigger] keys@[i]@ == names[i],
                is_order_of(order@, k as int),
                p <= order@.len(),
                forall|q: int| 0 <= q < p ==> name_le(names[order@[q] as int], names[k as int]),
            decreases order@.len() - p,
        {
            p = p + 1;
        }
        let ghost old_order = order@;
        order.insert(p, k);
        proof {
            let o = old_order;
            let o2 = order@;
            assert(o2 == o.insert(p as int, k));
            if p < o.len() {
                lemma_name_le_total(names[o[p as int] as int], names[k as int]);
            }
            assert forall|i: int| 0 <= i < k + 1 implies o2[i] < k + 1 by {
                if i < p {
                    assert(o2[i] == o[i]);
                } else if i > p {
                    assert(o2[i] == o[i - 1]);
                }
            }
            assert forall|i: int, j: int| 0 <= i < j < k + 1 implies o2[i] != o2[j] by {
                if i < p && j < p {
                    assert(o2[i] == o[i] && o2[j] == o[j]);
                } else if i < p && j > p {
                    assert(o2[i] == o[i] && o2[j] == o[j - 1]);
                } else if i > p {
                    assert(o2[i] == o[i - 1] && o2[j] == o[j - 1]);
                } else if i == p {
                    assert(o2[j] == o[j - 1]);
                } else {
                    assert(o2[i] == o[i]);
                }
            }
            assert forall|i: int, j: int| 0 <= i < j < o2.len() implies name_le(
                names[o2[i] as int],
                names[o2[j] as int],
            ) && (names[o2[i] as int] == names[o2[j] as int] ==> o2[i] < o2[j]) by {
                if j < p {
                    assert(o2[i] == o[i] && o2[j] == o[j]);
                } else if j == p {
                    assert(o2[i] == o[i]);
                } else if i < p {
                    assert(o2[i] == o[i] && o2[j] == o[j - 1]);
                } else if i == p {
                    assert(o2[j] == o[j - 1]);
                    assert(o2[i] == k);
                    let x = names[k as int];
                    let first = names[o[p as int] as int];
                    let later = names[o[j - 1] as int];
                    if j - 1 > p {
                        lemma_name_le_transitive(x, first, later);
                        if x == later {
                            assert(name_le(first, later));
                        }
                    }
                } else {
                    assert(o2[i] == o[i - 1] && o2[j] == o[j - 1]);
                }
            }
        }
        k = k + 1;
    }
    order
}

} // verus!

//! Native window configuration, identity and bookkeeping.
//!
//! The native surface subsystem owns its compositor connection on a
//! dedicated thread outside the library; the records it keeps, the
//! identities it mints and the decisions it takes live here.

use vstd::prelude::*;
use vstd::string::StringExecFns;
use crate::error::{NiriSpacerError, SpacerResult};
use crate::jtext::{dec, from_wire, u64_string};

verus! {

// ---------------------------------------------------------------------------
// Color parsing and configuration building
// ---------------------------------------------------------------------------

pub open spec fn is_hex_digit(c: char) -> bool {
    ('0' <= c && c <= '9') || ('a' <= c && c <= 'f') || ('A' <= c && c <= 'F')
}

pub open spec fn hex_val(c: char) -> nat {
    if '0' <= c && c <= '9' {
        (c as int - '0' as int) as nat
    } else if 'a' <= c && c <= 'f' {
        (c as int - 'a' as int + 10) as nat
    } else {
        (c as int - 'A' as int + 10) as nat
    }
}

/// A color string with every leading hash sign removed.
pub open spec fn strip_hashes(s: Seq<char>) -> Seq<char>
    decreases s.len(),
{
    if s.len() > 0 && s[0] == '#' {
        strip_hashes(s.drop_first())
    } else {
        s
    }
}

/// Whether a stripped color string is a well-formed six-digit
/// hexadecimal color.
pub open spec fn valid_hex_color(t: Seq<char>) -> bool {
    t.len() == 6 && forall|i: int| 0 <= i < 6 ==> is_hex_digit(#[trigger] t[i])
}

/// The color a well-formed string denotes.
pub open spec fn hex_color_value(t: Seq<char>) -> (u8, u8, u8) {
    (
        (hex_val(t[0]) * 16 + hex_val(t[1])) as u8,
        (hex_val(t[2]) * 16 + hex_val(t[3])) as u8,
        (hex_val(t[4]) * 16 + hex_val(t[5])) as u8,
    )
}

/// The value of one hexadecimal digit character.
fn hex_digit_val(c: char) -> (r: Option<u8>)
    ensures
        match r {
            Some(v) => is_hex_digit(c) && v == hex_val(c) && v < 16,
            None => !is_hex_digit(c),
        },
{
    if '0' <= c && c <= '9' {
        Some(((c as u32) - ('0' as u32)) as u8)
    } else if 'a' <= c && c <= 'f' {
        Some(((c as u32) - ('a' as u32) + 10) as u8)
    } else if 'A' <= c && c <= 'F' {
        Some(((c as u32) - ('A' as u32) + 10) as u8)
    } else {
        None
    }
}

/// Parses an RGB hex color of the form `RRGGBB`, with any leading hash
/// signs tolerated. Accepts exactly the six-hex-digit strings and
/// rejects everything else, naming the offending text.
pub fn parse_hex_color(hex: &str) -> (r: SpacerResult<(u8, u8, u8)>)
    ensures
        ({
            let t = strip_hashes(hex@);
            match r {
                Ok(c) => valid_hex_color(t) && c == hex_color_value(t),
                Err(e) => !valid_hex_color(t) && e matches NiriSpacerError::InvalidColor(_),
            }
        }),
{
    let v = from_wire(hex);
    let ghost whole = hex@;
    proof {
        assert(whole.skip(0) =~= whole);
    }
    let mut start: usize = 0;
    while start < v.len() && v[start] == '#'
        invariant
            start <= v.len(),
            v@ == whole,
            strip_hashes(whole) == strip_hashes(whole.skip(start as int)),
        decreases v.len() - start,
    {
        proof {
            assert(whole.skip(start as int)[0] == whole[start as int]);
            assert(whole.skip(start as int).drop_first() =~= whole.skip(start + 1 as int));
        }
        start = start + 1;
    }
    proof {
        if whole.skip(start as int).len() > 0 {
            assert(whole.skip(start as int)[0] == whole[start as int]);
        }
        assert(strip_hashes(whole.skip(start as int)) =~= whole.skip(start as int));
        assert(strip_hashes(whole) =~= whole.skip(start as int));
    }
    let ghost t = strip_hashes(whole);
    if v.len() - start != 6 {
        return Err(NiriSpacerError::InvalidColor(hex.to_owned()));
    }
    let mut digits: Vec<u8> = Vec::new();
    let mut k: usize = 0;
    while k < 6
        invariant
            k <= 6,
            whole == hex@,
            v@ == whole,
            start + 6 == v@.len(),
            v@.len() <= usize::MAX,
            t == strip_hashes(whole),
            t == whole.skip(start as int),
            digits@.len() == k,
            forall|i: int| 0 <= i < k ==> is_hex_digit(#[trigger] t[i]) && digits@[i] == hex_val(
                t[i],
            ) && digits@[i] < 16,
        decreases 6 - k,
    {
        proof {
            assert(start + k < v@.len());
            assert(t[k as int] == whole[start + k]);
        }
        let idx: usize = start + k;
        match hex_digit_val(v[idx]) {
            Some(d) => {
                digits.push(d);
            },
            None => {
                proof {
                    assert(!is_hex_digit(t[k as int]));
                    assert(!valid_hex_color(t));
                }
                return Err(NiriSpacerError::InvalidColor(hex.to_owned()));
            },
        }
        k = k + 1;
    }
    proof {
        assert(is_hex_digit(t[0]) && is_hex_digit(t[1]) && is_hex_digit(t[2]) && is_hex_digit(
            t[3],
        ) && is_hex_digit(t[4]) && is_hex_digit(t[5]));
    }
    let r8: u8 = digits[0] * 16 + digits[1];
    let g8: u8 = digits[2] * 16 + digits[3];
    let b8: u8 = digits[4] * 16 + digits[5];
    Ok((r8, g8, b8))
}

/// Builds the native configuration from the command line's plain
/// values: the correlation timeout and debug flag are taken as given,
/// and the optional color string must parse as a hex color.
pub fn create_native_config(
    correlation_timeout_ms: u64,
    debug_native: bool,
    native_color: &Option<String>,
) -> (r: SpacerResult<NativeConfig>)
    ensures
        match r {
            Ok(c) => {
                &&& c.correlation_timeout_ms == correlation_timeout_ms
                &&& c.debug_native == debug_native
                &&& c.app_id_pattern@ == "niri-spacer-native"@
                &&& (match *native_color {
                    Some(ref col) => valid_hex_color(strip_hashes(col@)) && c.background_color
                        == hex_color_value(strip_hashes(col@)),
                    None => c.background_color == (128u8, 128u8, 128u8),
                })
            },
            Err(e) => native_color matches Some(col) && !valid_hex_color(strip_hashes(col@))
                && e matches NiriSpacerError::InvalidColor(_),
        },
{
    let background_color: (u8, u8, u8) = match native_color {
        Some(col) => match parse_hex_color(col.as_str()) {
            Ok(c) => c,
            Err(e) => {
                return Err(e);
            },
        },
        None => (128, 128, 128),
    };
    let mut config = NativeConfig::default();
    config.correlation_timeout_ms = correlation_timeout_ms;
    config.debug_native = debug_native;
    config.background_color = background_color;
    Ok(config)
}

/// Configuration for native window behavior.
#[derive(Debug)]
pub struct NativeConfig {
    /// Background color for native windows (RGB).
    pub background_color: (u8, u8, u8),
    /// Timeout for window correlation (milliseconds).
    pub correlation_timeout_ms: u64,
    /// App-id pattern used as the correlation key's prefix.
    pub app_id_pattern: String,
    /// Whether to enable extra diagnostics for native windows.
    pub debug_native: bool,
}

impl Clone for NativeConfig {
    /// The copy carries exactly the same fields.
    fn clone(&self) -> (r: Self)
        ensures
            r == *self,
    {
        NativeConfig {
            background_color: self.background_color,
            correlation_timeout_ms: self.correlation_timeout_ms,
            app_id_pattern: self.app_id_pattern.clone(),
            debug_native: self.debug_native,
        }
    }
}

impl Default for NativeConfig {
    /// Gray windows, a five second correlation budget, the standard
    /// app-id prefix, and no extra diagnostics.
    fn default() -> (r: Self)
        ensures
            r.background_color == (128u8, 128u8, 128u8),
            r.correlation_timeout_ms == 5000,
            r.app_id_pattern@ == "niri-spacer-native"@,
            !r.debug_native,
    {
        NativeConfig {
            background_color: (128, 128, 128),
            correlation_timeout_ms: 5000,
            app_id_pattern: "niri-spacer-native".to_owned(),
            debug_native: false,
        }
    }
}

/// Configuration for one native window.
#[derive(Debug)]
pub struct NativeWindowConfig {
    pub app_id: String,
    pub title: String,
    pub background_color: (u8, u8, u8),
    /// Timeout for window correlation (milliseconds).
    pub correlation_timeout_ms: u64,
}

impl Clone for NativeWindowConfig {
    /// The copy carries exactly the same fields.
    fn clone(&self) -> (r: Self)
        ensures
            r == *self,
    {
        NativeWindowConfig {
            app_id: self.app_id.clone(),
            title: self.title.clone(),
            background_color: self.background_color,
            correlation_timeout_ms: self.correlation_timeout_ms,
        }
    }
}

impl Default for NativeWindowConfig {
    /// The standard identity, title, gray fill and five second
    /// correlation budget.
    fn default() -> (r: Self)
        ensures
            r.app_id@ == "niri-spacer-native"@,
            r.title@ == "niri-spacer"@,
            r.background_color == (128u8, 128u8, 128u8),
            r.correlation_timeout_ms == 5000,
    {
        NativeWindowConfig {
            app_id: "niri-spacer-native".to_owned(),
            title: "niri-spacer".to_owned(),
            background_color: (128, 128, 128),
            correlation_timeout_ms: 5000,
        }
    }
}

/// A local native window: its local id, the identity it was created
/// with, and what correlation has learned about it so far.
#[derive(Debug)]
pub struct NativeWindow {
    pub window_id: u32,
    pub app_id: String,
    pub niri_window_id: Option<u64>,
    pub workspace_id: Option<u64>,
}

impl Clone for NativeWindow {
    /// The copy carries exactly the same fields.
    fn clone(&self) -> (r: Self)
        ensures
            r == *self,
    {
        NativeWindow {
            window_id: self.window_id,
            app_id: self.app_id.clone(),
            niri_window_id: self.niri_window_id,
            workspace_id: self.workspace_id,
        }
    }
}

// ---------------------------------------------------------------------------
// Identity generation
// ---------------------------------------------------------------------------

/// Relies on fastrand::u32: draws a number from the full range. The
/// result depends on the generator's state, so nothing is promised of
/// its value.
#[verifier::external_body]
fn random_u32() -> u32 {
    fastrand::u32(..)
}

/// The app-id minted for one window: the configured prefix, the
/// window's ordinal, a wall-clock timestamp and a random salt, joined
/// with dashes.
pub open spec fn app_id_spec(
    pattern: Seq<char>,
    window_number: u32,
    timestamp_ms: u64,
    salt: u32,
) -> Seq<char> {
    pattern + "-"@ + dec(window_number as nat) + "-"@ + dec(timestamp_ms as nat) + "-"@ + dec(
        salt as nat,
    )
}

/// Builds the app-id from its four parts.
pub fn build_app_id(pattern: &str, window_number: u32, timestamp_ms: u64, salt: u32) -> (r:
    String)
    ensures
        r@ == app_id_spec(pattern@, window_number, timestamp_ms, salt),
{
    let mut s = pattern.to_owned();
    s.append("-");
    let p1 = u64_string(window_number as u64);
    s.append(p1.as_str());
    s.append("-");
    let p2 = u64_string(timestamp_ms);
    s.append(p2.as_str());
    s.append("-");
    let p3 = u64_string(salt as u64);
    s.append(p3.as_str());
    s
}

/// Mints a fresh app-id for correlation: the caller supplies the
/// wall-clock timestamp, and the salt comes from the random generator,
/// so the result is the minted form for some salt. Uniqueness across
/// rapid repeated runs rests on the timestamp and the salt together.
pub fn generate_unique_app_id(pattern: &str, window_number: u32, timestamp_ms: u64) -> (r: String)
    ensures
        exists|salt: u32| r@ == app_id_spec(pattern@, window_number, timestamp_ms, salt),
{
    let salt = random_u32();
    let r = build_app_id(pattern, window_number, timestamp_ms, salt);
    proof {
        assert(r@ == app_id_spec(pattern@, window_number, timestamp_ms, salt));
    }
    r
}

/// The title given to one spacer window.
pub open spec fn spacer_title_spec(window_number: u32) -> Seq<char> {
    "niri-spacer window "@ + dec(window_number as nat)
}

/// Builds the title for one spacer window.
pub fn spacer_window_title(window_number: u32) -> (r: String)
    ensures
        r@ == spacer_title_spec(window_number),
{
    let mut s = "niri-spacer window ".to_owned();
    let p = u64_string(window_number as u64);
    s.append(p.as_str());
    s
}

// ---------------------------------------------------------------------------
// Native window bookkeeping
// ---------------------------------------------------------------------------

/// The windows a sequence of records keeps after one local window
/// closes.
pub open spec fn without_window(ws: Seq<NativeWindow>, window_id: u32) -> Seq<NativeWindow> {
    ws.filter(|w: NativeWindow| w.window_id != window_id)
}

/// The correlated compositor ids of a sequence of records, in order.
pub open spec fn correlated_ids_spec(ws: Seq<NativeWindow>) -> Seq<u64>
    decreases ws.len(),
{
    if ws.len() == 0 {
        Seq::empty()
    } else {
        (match ws[0].niri_window_id {
            Some(id) => seq![id],
            None => Seq::<u64>::empty(),
        }) + correlated_ids_spec(ws.drop_first())
    }
}

/// The registry of live native windows that the surface subsystem
/// tracks. The compositor connection and the dispatch thread live with
/// the caller; every record decision lives here.
pub struct NativeWindowRegistry {
    pub config: NativeConfig,
    pub windows: Vec<NativeWindow>,
}

impl NativeWindowRegistry {
    /// An empty registry for the given configuration.
    pub fn new(config: NativeConfig) -> (r: Self)
        ensures
            r.config == config,
            r.windows@.len() == 0,
    {
        NativeWindowRegistry { config: config, windows: Vec::new() }
    }

    /// Records a freshly created native window, not yet correlated.
    pub fn record_created(&mut self, window_id: u32, app_id: String)
        ensures
            final(self).config == old(self).config,
            final(self).windows@ == old(self).windows@.push(
                NativeWindow {
                    window_id: window_id,
                    app_id: app_id,
                    niri_window_id: None,
                    workspace_id: None,
                },
            ),
    {
        self.windows.push(NativeWindow {
            window_id: window_id,
            app_id: app_id,
            niri_window_id: None,
            workspace_id: None,
        });
    }

    /// Marks the most recently created window as correlated with a
    /// compositor id and a target workspace index.
    pub fn mark_last_correlated(&mut self, niri_window_id: u64, workspace_idx: u8)
        requires
            old(self).windows@.len() > 0,
        ensures
            final(self).config == old(self).config,
            final(self).windows@.len() == old(self).windows@.len(),
            final(self).windows@.last().niri_window_id == Some(niri_window_id),
            final(self).windows@.last().workspace_id == Some(workspace_idx as u64),
            final(self).windows@.last().window_id == old(self).windows@.last().window_id,
            final(self).windows@.last().app_id == old(self).windows@.last().app_id,
            forall|i: int| 0 <= i < old(self).windows@.len() - 1 ==> final(self).windows@[i]
                == old(self).windows@[i],
    {
        let n = self.windows.len();
        let prev = self.windows[n - 1].clone();
        self.windows.set(n - 1, NativeWindow {
            window_id: prev.window_id,
            app_id: prev.app_id,
            niri_window_id: Some(niri_window_id),
            workspace_id: Some(workspace_idx as u64),
        });
    }

    /// Forgets a window the compositor closed.
    pub fn handle_window_closed(&mut self, window_id: u32)
        ensures
            final(self).config == old(self).config,
            final(self).windows@ == without_window(old(self).windows@, window_id),
    {
        let mut kept: Vec<NativeWindow> = Vec::new();
        let ghost orig = self.windows@;
        proof {
            assert(orig.take(0).filter(|w: NativeWindow| w.window_id != window_id)
                =~= Seq::<NativeWindow>::empty());
        }
        let mut i: usize = 0;
        while i < self.windows.len()
            invariant
                i <= self.windows@.len(),
                orig == self.windows@,
                kept@ == orig.take(i as int).filter(|w: NativeWindow| w.window_id != window_id),
            decreases self.windows@.len() - i,
        {
            proof {
                reveal_with_fuel(Seq::filter, 2);
                assert(orig.take(i + 1 as int).drop_last() =~= orig.take(i as int));
                assert(orig.take(i + 1 as int).last() == orig[i as int]);
            }
            if self.windows[i].window_id != window_id {
                let w = self.windows[i].clone();
                kept.push(w);
            }
            i = i + 1;
        }
        proof {
            assert(orig.take(orig.len() as int) =~= orig);
        }
        self.windows = kept;
    }

    /// How many native windows are tracked.
    pub fn window_count(&self) -> (r: usize)
        ensures
            r == self.windows@.len(),
    {
        self.windows.len()
    }

    /// The local ids of all tracked windows, in creation order; the
    /// teardown pass closes exactly these.
    pub fn local_ids(&self) -> (r: Vec<u32>)
        ensures
            r@ == self.windows@.map_values(|w: NativeWindow| w.window_id),
    {
        let ghost all = self.windows@;
        let mut out: Vec<u32> = Vec::new();
        let mut i: usize = 0;
        proof {
            assert(out@ =~= all.map_values(|w: NativeWindow| w.window_id).take(0));
        }
        while i < self.windows.len()
            invariant
                i <= self.windows@.len(),
                all == self.windows@,
                out@ == all.map_values(|w: NativeWindow| w.window_id).take(i as int),
            decreases self.windows@.len() - i,
        {
            out.push(self.windows[i].window_id);
            proof {
                assert(all.map_values(|w: NativeWindow| w.window_id).take(i + 1 as int)
                    =~= all.map_values(|w: NativeWindow| w.window_id).take(i as int).push(
                    all[i as int].window_id,
                ));
            }
            i = i + 1;
        }
        proof {
            assert(all.map_values(|w: NativeWindow| w.window_id).take(all.len() as int)
                =~= all.map_values(|w: NativeWindow| w.window_id));
        }
        out
    }

    /// The compositor ids of all correlated windows, in creation order;
    /// the focus loop watches exactly these.
    pub fn correlated_ids(&self) -> (r: Vec<u64>)
        ensures
            r@ == correlated_ids_spec(self.windows@),
    {
        let ghost all = self.windows@;
        proof {
            assert(correlated_ids_spec(all.skip(all.len() as int)) =~= Seq::<u64>::empty());
        }
        // collect from the back so the spec's front recursion lines up
        let mut back: Vec<u64> = Vec::new();
        let mut k: usize = self.windows.len();
        while k > 0
            invariant
                k <= self.windows@.len(),
                all == self.windows@,
                back@ == correlated_ids_spec(all.skip(k as int)),
            decreases k,
        {
            k = k - 1;
            proof {
                assert(all.skip(k as int)[0] == all[k as int]);
                assert(all.skip(k as int).drop_first() =~= all.skip(k + 1 as int));
            }
            match self.windows[k].niri_window_id {
                Some(id) => {
                    let mut next: Vec<u64> = Vec::new();
                    next.push(id);
                    let mut b = 0usize;
                    while b < back.len()
                        invariant
                            b <= back@.len(),
                            next@ == seq![id].add(back@.take(b as int)),
                        decreases back@.len() - b,
                    {
                        proof {
                            assert(back@.take(b + 1 as int) =~= back@.take(b as int).push(
                                back@[b as int],
                            ));
                            assert(seq![id].add(back@.take(b as int)).push(back@[b as int])
                                =~= seq![id].add(back@.take(b + 1 as int)));
                        }
                        let x = back[b];
                        next.push(x);
                        b = b + 1;
                    }
                    proof {
                        assert(back@.take(back@.len() as int) =~= back@);
                    }
                    back = next;
                },
                None => {
                    proof {
                        assert(Seq::<u64>::empty() + correlated_ids_spec(all.skip(k + 1 as int))
                            =~= correlated_ids_spec(all.skip(k + 1 as int)));
                    }
                },
            }
        }
        proof {
            assert(all.skip(0) =~= all);
        }
        back
    }
}

} // verus!

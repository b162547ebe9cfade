# ffxiv_crafting

A simulator of crafting in Final Fantasy XIV, written in Verus: the functions of the
library carry contracts, and Verus proves the code against them. One function is
trusted rather than proved: `rolls::roll_percentile`, which draws a percentile from
`rand`'s seeded generator and is only claimed to return a value below 100. Everything
that uses the roll is proved for every value it can take.

The recipe level table in `recipe.rs` holds the levels from `RLvl::MIN_RLVL` to
`RLvl::MAX_RLVL`; at present that is the single level 580.

## Layout

- `src/` — the verified library.
  - `conditions.rs`: the condition sets, their modifiers and their transition tables;
    `sample` draws the next condition with a percentile roll.
  - `buffs/`: the buffs (Inner Quiet, Great Strides, Veneration, Waste Not, …), the
    traits that describe how they activate, tick down and are consumed, and `BuffState`.
  - `actions/`: every action, as the enum `FfxivCraftingActions` with its tables and as a
    unit type implementing the `Action` traits; `engine.rs` holds the rules (CP, durability,
    progress, quality, buffs consumed and granted, the delta and the outcome) and
    `laws.rs` the properties proved of them.
  - `lib.rs`: the crafter, the problem and the crafting state, applying a delta, and
    taking an action with random success and a random next condition.
  - `recipe.rs`, `lookups.rs`: recipe levels and the tables derived from them.
  - `quality_map.rs`: from final quality to the chance of a high-quality result.
  - `table_reader.rs`: a reader that presents an exported game table to a CSV reader.
  - `grid.rs`: moves on a square grid world.
  - `rolls.rs`: the percentile roll drawn from `rand`'s seeded generator.
- `tests/` — tests of the library on concrete values.
- `app/` — reading exported tables from files with `csv` and `serde`, and error messages.

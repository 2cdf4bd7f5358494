//! A rules engine for mixing a base product with a sequence of ingredients.
//!
//! Each ingredient rewrites the product's set of effects through a table of
//! guarded replacement rules; sale price, production cost, addictiveness and
//! yield follow from the resulting mix.
//!
//! All amounts are exact. Prices and costs are whole numbers, a cost per unit
//! is a quotient of two whole numbers, the price multiplier of an effect is
//! given in hundredths and its addictiveness in thousandths, and the
//! addictiveness of a mix in whole percent.
pub mod effect;
pub mod effect_set;
pub mod ingredient;
pub mod laws;
pub mod mix_state;
pub mod pricing;
pub mod product;
pub mod quality;
pub mod reaction;
pub mod sellable;

pub use effect::Effect;
pub use effect_set::EffectSet;
pub use ingredient::Ingredient;
pub use mix_state::{MixState, OneTimeIngredient, OneTimeSet};
pub use pricing::Ratio;
pub use product::Product;
pub use quality::Quality;
pub use sellable::{Sellable, SellableView};

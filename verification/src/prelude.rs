//! The crate's commonly used items in one place.

pub use crate::Name;
pub use crate::SwoopUiPlugin;
pub use crate::View;
pub use crate::ViewToBundle;

pub use crate::assets::FontHandle;
pub use crate::assets::ImageHandle;
pub use crate::background::BackgroundStyle;
pub use crate::background::BackgroundView;
pub use crate::background::ImageNode;
pub use crate::background::NodeImageMode;
pub use crate::border::BorderRadius;
pub use crate::border::BorderStyle;
pub use crate::border::BorderView;
pub use crate::button::Button;
pub use crate::button::h_button::HButton;
pub use crate::button::text_button::TextButton;
pub use crate::button::text_button::TextButtonBundle;
pub use crate::button::text_button::TextButtonContent;
pub use crate::button::v_button::VButton;
pub use crate::color::Rgba;
pub use crate::container::grid::GridView;
pub use crate::container::grid::h_grid::HGrid;
pub use crate::container::grid::v_grid::VGrid;
pub use crate::container::stack::StackView;
pub use crate::container::stack::h_stack::HStack;
pub use crate::container::stack::v_stack::VStack;
pub use crate::layout::AlignItems;
pub use crate::layout::Display;
pub use crate::layout::FlexDirection;
pub use crate::layout::FlexWrap;
pub use crate::layout::GridAutoFlow;
pub use crate::layout::GridPlacement;
pub use crate::layout::GridTrack;
pub use crate::layout::GridTrackRepetition;
pub use crate::layout::JustifyContent;
pub use crate::layout::Node;
pub use crate::layout::PositionType;
pub use crate::layout::RepeatedGridTrack;
pub use crate::position::PositionView;
pub use crate::shadow::BoxShadow;
pub use crate::shadow::BoxShadowView;
pub use crate::shadow::ShadowStyle;
pub use crate::shadow::TextShadow;
pub use crate::shadow::TextShadowView;
pub use crate::text::FontSmoothing;
pub use crate::text::JustifyText;
pub use crate::text::LineBreak;
pub use crate::text::LineHeight;
pub use crate::text::Text;
pub use crate::text::TextFont;
pub use crate::text::TextLayout;
pub use crate::text::TextStyle;
pub use crate::text::TextView;
pub use crate::text::swoop_text::SText;
pub use crate::text::swoop_text::SwoopText;
pub use crate::units::Offset;
pub use crate::units::UiRect;
pub use crate::units::Val;

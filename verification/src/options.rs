//! The flat option record, its defaults, and its resolution into the three
//! option groups of the engine and the orchestration flags.

use vstd::prelude::*;
use vstd::std_specs::convert::FromSpecImpl;

pub use svgcleaner::{CleaningOptions, ParseOptions, StyleJoinMode, WriteOptions};
use svgdom::{AttributesOrder, Indent, ListSeparator};

verus! {

/// Indentation of written nodes or attributes, as the option record names it.
#[derive(Clone, Copy, Debug, PartialEq, Eq, Structural)]
pub enum IndentFork {
    /// No indentation and no line breaks.
    NoIndent,
    /// Indentation by the given number of spaces.
    Spaces(u8),
    /// Indentation by one tab.
    Tabs,
}

impl IndentFork {
    /// The engine's indentation that this value stands for.
    pub open spec fn engine_value(self) -> Indent {
        match self {
            IndentFork::NoIndent => Indent::None,
            IndentFork::Spaces(num) => Indent::Spaces(num),
            IndentFork::Tabs => Indent::Tabs,
        }
    }
}

impl From<IndentFork> for Indent {
    fn from(fork: IndentFork) -> (indent: Self) {
        match fork {
            IndentFork::NoIndent => Indent::None,
            IndentFork::Spaces(num) => Indent::Spaces(num),
            IndentFork::Tabs => Indent::Tabs,
        }
    }
}

impl FromSpecImpl<IndentFork> for Indent {
    open spec fn obeys_from_spec() -> bool {
        true
    }

    open spec fn from_spec(fork: IndentFork) -> Indent {
        fork.engine_value()
    }
}

/// Separator between the numbers of a written list.
#[derive(Clone, Copy, Debug, PartialEq, Eq, Structural)]
pub enum ListSeparatorFork {
    Comma,
    Space,
    CommaSpace,
}

impl ListSeparatorFork {
    /// The engine's separator that this value stands for.
    pub open spec fn engine_value(self) -> ListSeparator {
        match self {
            ListSeparatorFork::Comma => ListSeparator::Comma,
            ListSeparatorFork::Space => ListSeparator::Space,
            ListSeparatorFork::CommaSpace => ListSeparator::CommaSpace,
        }
    }
}

impl From<ListSeparatorFork> for ListSeparator {
    fn from(fork: ListSeparatorFork) -> (separator: Self) {
        match fork {
            ListSeparatorFork::Comma => ListSeparator::Comma,
            ListSeparatorFork::Space => ListSeparator::Space,
            ListSeparatorFork::CommaSpace => ListSeparator::CommaSpace,
        }
    }
}

impl FromSpecImpl<ListSeparatorFork> for ListSeparator {
    open spec fn obeys_from_spec() -> bool {
        true
    }

    open spec fn from_spec(fork: ListSeparatorFork) -> ListSeparator {
        fork.engine_value()
    }
}

/// Order in which the attributes of an element are written.
#[derive(Clone, Copy, Debug, PartialEq, Eq, Structural)]
pub enum AttributesOrderFork {
    AsIs,
    Alphabetical,
    Specification,
}

impl AttributesOrderFork {
    /// The engine's order that this value stands for.
    pub open spec fn engine_value(self) -> AttributesOrder {
        match self {
            AttributesOrderFork::AsIs => AttributesOrder::AsIs,
            AttributesOrderFork::Alphabetical => AttributesOrder::Alphabetical,
            AttributesOrderFork::Specification => AttributesOrder::Specification,
        }
    }
}

impl From<AttributesOrderFork> for AttributesOrder {
    fn from(fork: AttributesOrderFork) -> (order: Self) {
        match fork {
            AttributesOrderFork::AsIs => AttributesOrder::AsIs,
            AttributesOrderFork::Alphabetical => AttributesOrder::Alphabetical,
            AttributesOrderFork::Specification => AttributesOrder::Specification,
        }
    }
}

impl FromSpecImpl<AttributesOrderFork> for AttributesOrder {
    open spec fn obeys_from_spec() -> bool {
        true
    }

    open spec fn from_spec(fork: AttributesOrderFork) -> AttributesOrder {
        fork.engine_value()
    }
}

/// How far presentation attributes are joined into one `style` attribute.
#[derive(Clone, Copy, Debug, PartialEq, Eq, Structural)]
pub enum StyleJoinModeFork {
    /// Never join.
    NoJoin,
    /// Join where an element has enough of them to gain from it.
    JoinSome,
    /// Always join.
    All,
}

impl StyleJoinModeFork {
    /// The engine's join mode that this value stands for.
    pub open spec fn engine_value(self) -> StyleJoinMode {
        match self {
            StyleJoinModeFork::NoJoin => StyleJoinMode::None,
            StyleJoinModeFork::JoinSome => StyleJoinMode::Some,
            StyleJoinModeFork::All => StyleJoinMode::All,
        }
    }
}

impl From<StyleJoinModeFork> for StyleJoinMode {
    fn from(fork: StyleJoinModeFork) -> (mode: Self) {
        match fork {
            StyleJoinModeFork::NoJoin => StyleJoinMode::None,
            StyleJoinModeFork::JoinSome => StyleJoinMode::Some,
            StyleJoinModeFork::All => StyleJoinMode::All,
        }
    }
}

impl FromSpecImpl<StyleJoinModeFork> for StyleJoinMode {
    open spec fn obeys_from_spec() -> bool {
        true
    }

    open spec fn from_spec(fork: StyleJoinModeFork) -> StyleJoinMode {
        fork.engine_value()
    }
}

/// The flags that steer the orchestration and are never handed to the engine.
#[derive(Clone, Copy, Debug, PartialEq, Eq, Structural)]
pub struct NodeSvgCleanerFlags {
    /// Repeat the pass until the output keeps its length.
    pub multipass: bool,
    /// Accept a result that is longer than the input.
    pub allow_bigger_file: bool,
    /// End the result with a line feed.
    pub append_newline: bool,
}

/// The flat option record: every tunable of a run, by name.
#[derive(Clone, Copy, Debug, PartialEq, Eq, Structural)]
pub struct SvgCleanerOptions {
    // Parsing.
    pub parse_comments: bool,
    pub parse_declarations: bool,
    pub parse_unknown_elements: bool,
    pub parse_unknown_attributes: bool,
    pub parse_px_unit: bool,
    pub skip_unresolved_classes: bool,
    pub skip_invalid_attributes: bool,
    pub skip_invalid_css: bool,
    pub skip_paint_fallback: bool,

    // Writing.
    pub indent: IndentFork,
    pub attributes_indent: IndentFork,
    pub use_single_quote: bool,
    pub trim_hex_colors: bool,
    pub write_hidden_attributes: bool,
    pub remove_leading_zero: bool,
    pub use_compact_path_notation: bool,
    pub join_arc_to_flags: bool,
    pub remove_duplicated_path_commands: bool,
    pub use_implicit_lineto_commands: bool,
    pub simplify_transform_matrices: bool,
    pub list_separator: ListSeparatorFork,
    pub attributes_order: AttributesOrderFork,

    // Cleaning.
    pub remove_unused_defs: bool,
    pub convert_shapes: bool,
    pub remove_title: bool,
    pub remove_desc: bool,
    pub remove_metadata: bool,
    pub remove_dupl_linear_gradients: bool,
    pub remove_dupl_radial_gradients: bool,
    pub remove_dupl_fe_gaussian_blur: bool,
    pub ungroup_groups: bool,
    pub ungroup_defs: bool,
    pub group_by_style: bool,
    pub merge_gradients: bool,
    pub regroup_gradient_stops: bool,
    pub remove_invalid_stops: bool,
    pub remove_invisible_elements: bool,
    pub resolve_use: bool,
    pub remove_version: bool,
    pub remove_unreferenced_ids: bool,
    pub trim_ids: bool,
    pub remove_text_attributes: bool,
    pub remove_unused_coordinates: bool,
    pub remove_default_attributes: bool,
    pub remove_xmlns_xlink_attribute: bool,
    pub remove_needless_attributes: bool,
    pub remove_gradient_attributes: bool,
    pub join_style_attributes: StyleJoinModeFork,
    pub apply_transform_to_gradients: bool,
    pub apply_transform_to_shapes: bool,
    pub paths_to_relative: bool,
    pub remove_unused_segments: bool,
    pub convert_segments: bool,
    pub apply_transform_to_paths: bool,
    pub coordinates_precision: u8,
    pub properties_precision: u8,
    pub paths_coordinates_precision: u8,
    pub transforms_precision: u8,

    // Orchestration.
    pub multipass: bool,
    pub allow_bigger_file: bool,
    pub append_newline: bool,
}

impl SvgCleanerOptions {
    /// The record in which every option has its default.
    pub open spec fn defaults() -> SvgCleanerOptions {
        SvgCleanerOptions {
            parse_comments: true,
            parse_declarations: true,
            parse_unknown_elements: true,
            parse_unknown_attributes: true,
            parse_px_unit: true,
            skip_unresolved_classes: true,
            skip_invalid_attributes: false,
            skip_invalid_css: false,
            skip_paint_fallback: false,

            indent: IndentFork::NoIndent,
            attributes_indent: IndentFork::NoIndent,
            use_single_quote: false,
            trim_hex_colors: true,
            write_hidden_attributes: true,
            remove_leading_zero: true,
            use_compact_path_notation: true,
            join_arc_to_flags: false,
            remove_duplicated_path_commands: true,
            use_implicit_lineto_commands: true,
            simplify_transform_matrices: true,
            list_separator: ListSeparatorFork::Space,
            attributes_order: AttributesOrderFork::AsIs,

            remove_unused_defs: true,
            convert_shapes: true,
            remove_title: true,
            remove_desc: true,
            remove_metadata: true,
            remove_dupl_linear_gradients: true,
            remove_dupl_radial_gradients: true,
            remove_dupl_fe_gaussian_blur: true,
            ungroup_groups: true,
            ungroup_defs: true,
            group_by_style: true,
            merge_gradients: true,
            regroup_gradient_stops: true,
            remove_invalid_stops: true,
            remove_invisible_elements: true,
            resolve_use: true,
            remove_version: true,
            remove_unreferenced_ids: true,
            trim_ids: true,
            remove_text_attributes: true,
            remove_unused_coordinates: true,
            remove_default_attributes: true,
            remove_xmlns_xlink_attribute: true,
            remove_needless_attributes: true,
            remove_gradient_attributes: false,
            join_style_attributes: StyleJoinModeFork::NoJoin,
            apply_transform_to_gradients: true,
            apply_transform_to_shapes: true,
            paths_to_relative: true,
            remove_unused_segments: true,
            convert_segments: true,
            apply_transform_to_paths: false,
            coordinates_precision: 6,
            properties_precision: 6,
            paths_coordinates_precision: 8,
            transforms_precision: 8,

            multipass: false,
            allow_bigger_file: false,
            append_newline: false,
        }
    }

    /// The parse options that the record resolves to.
    pub open spec fn parse_options(self) -> ParseOptions {
        ParseOptions {
            parse_comments: self.parse_comments,
            parse_declarations: self.parse_declarations,
            parse_unknown_elements: self.parse_unknown_elements,
            parse_unknown_attributes: self.parse_unknown_attributes,
            parse_px_unit: self.parse_px_unit,
            skip_unresolved_classes: self.skip_unresolved_classes,
            skip_invalid_attributes: self.skip_invalid_attributes,
            skip_invalid_css: self.skip_invalid_css,
            skip_paint_fallback: self.skip_paint_fallback,
        }
    }

    /// The write options that the record resolves to.
    pub open spec fn write_options(self) -> WriteOptions {
        WriteOptions {
            indent: self.indent.engine_value(),
            attributes_indent: self.attributes_indent.engine_value(),
            use_single_quote: self.use_single_quote,
            trim_hex_colors: self.trim_hex_colors,
            write_hidden_attributes: self.write_hidden_attributes,
            remove_leading_zero: self.remove_leading_zero,
            use_compact_path_notation: self.use_compact_path_notation,
            join_arc_to_flags: self.join_arc_to_flags,
            remove_duplicated_path_commands: self.remove_duplicated_path_commands,
            use_implicit_lineto_commands: self.use_implicit_lineto_commands,
            simplify_transform_matrices: self.simplify_transform_matrices,
            list_separator: self.list_separator.engine_value(),
            attributes_order: self.attributes_order.engine_value(),
        }
    }

    /// The cleaning options that the record resolves to.
    pub open spec fn cleaning_options(self) -> CleaningOptions {
        CleaningOptions {
            remove_unused_defs: self.remove_unused_defs,
            convert_shapes: self.convert_shapes,
            remove_title: self.remove_title,
            remove_desc: self.remove_desc,
            remove_metadata: self.remove_metadata,
            remove_dupl_linear_gradients: self.remove_dupl_linear_gradients,
            remove_dupl_radial_gradients: self.remove_dupl_radial_gradients,
            remove_dupl_fe_gaussian_blur: self.remove_dupl_fe_gaussian_blur,
            ungroup_groups: self.ungroup_groups,
            ungroup_defs: self.ungroup_defs,
            group_by_style: self.group_by_style,
            merge_gradients: self.merge_gradients,
            regroup_gradient_stops: self.regroup_gradient_stops,
            remove_invalid_stops: self.remove_invalid_stops,
            remove_invisible_elements: self.remove_invisible_elements,
            resolve_use: self.resolve_use,
            remove_version: self.remove_version,
            remove_unreferenced_ids: self.remove_unreferenced_ids,
            trim_ids: self.trim_ids,
            remove_text_attributes: self.remove_text_attributes,
            remove_unused_coordinates: self.remove_unused_coordinates,
            remove_default_attributes: self.remove_default_attributes,
            remove_xmlns_xlink_attribute: self.remove_xmlns_xlink_attribute,
            remove_needless_attributes: self.remove_needless_attributes,
            remove_gradient_attributes: self.remove_gradient_attributes,
            join_style_attributes: self.join_style_attributes.engine_value(),
            apply_transform_to_gradients: self.apply_transform_to_gradients,
            apply_transform_to_shapes: self.apply_transform_to_shapes,
            paths_to_relative: self.paths_to_relative,
            remove_unused_segments: self.remove_unused_segments,
            convert_segments: self.convert_segments,
            apply_transform_to_paths: self.apply_transform_to_paths,
            coordinates_precision: self.coordinates_precision,
            properties_precision: self.properties_precision,
            paths_coordinates_precision: self.paths_coordinates_precision,
            transforms_precision: self.transforms_precision,
        }
    }

    /// The orchestration flags that the record resolves to.
    pub open spec fn flags(self) -> NodeSvgCleanerFlags {
        NodeSvgCleanerFlags {
            multipass: self.multipass,
            allow_bigger_file: self.allow_bigger_file,
            append_newline: self.append_newline,
        }
    }

    /// Splits the record into the three option groups of the engine and the
    /// orchestration flags, in this order: parsing, cleaning, writing, flags.
    /// Every field of the record goes to exactly one field of one group,
    /// under the same name.
    pub fn split(self) -> (groups: (
        ParseOptions,
        CleaningOptions,
        WriteOptions,
        NodeSvgCleanerFlags,
    ))
        ensures
            groups.0 == self.parse_options(),
            groups.1 == self.cleaning_options(),
            groups.2 == self.write_options(),
            groups.3 == self.flags(),
    {
        (
            ParseOptions {
                parse_comments: self.parse_comments,
                parse_declarations: self.parse_declarations,
                parse_unknown_elements: self.parse_unknown_elements,
                parse_unknown_attributes: self.parse_unknown_attributes,
                parse_px_unit: self.parse_px_unit,
                skip_unresolved_classes: self.skip_unresolved_classes,
                skip_invalid_attributes: self.skip_invalid_attributes,
                skip_invalid_css: self.skip_invalid_css,
                skip_paint_fallback: self.skip_paint_fallback,
            },
            CleaningOptions {
                remove_unused_defs: self.remove_unused_defs,
                convert_shapes: self.convert_shapes,
                remove_title: self.remove_title,
                remove_desc: self.remove_desc,
                remove_metadata: self.remove_metadata,
                remove_dupl_linear_gradients: self.remove_dupl_linear_gradients,
                remove_dupl_radial_gradients: self.remove_dupl_radial_gradients,
                remove_dupl_fe_gaussian_blur: self.remove_dupl_fe_gaussian_blur,
                ungroup_groups: self.ungroup_groups,
                ungroup_defs: self.ungroup_defs,
                group_by_style: self.group_by_style,
                merge_gradients: self.merge_gradients,
                regroup_gradient_stops: self.regroup_gradient_stops,
                remove_invalid_stops: self.remove_invalid_stops,
                remove_invisible_elements: self.remove_invisible_elements,
                resolve_use: self.resolve_use,
                remove_version: self.remove_version,
                remove_unreferenced_ids: self.remove_unreferenced_ids,
                trim_ids: self.trim_ids,
                remove_text_attributes: self.remove_text_attributes,
                remove_unused_coordinates: self.remove_unused_coordinates,
                remove_default_attributes: self.remove_default_attributes,
                remove_xmlns_xlink_attribute: self.remove_xmlns_xlink_attribute,
                remove_needless_attributes: self.remove_needless_attributes,
                remove_gradient_attributes: self.remove_gradient_attributes,
                join_style_attributes: StyleJoinMode::from(self.join_style_attributes),
                apply_transform_to_gradients: self.apply_transform_to_gradients,
                apply_transform_to_shapes: self.apply_transform_to_shapes,
                paths_to_relative: self.paths_to_relative,
                remove_unused_segments: self.remove_unused_segments,
                convert_segments: self.convert_segments,
                apply_transform_to_paths: self.apply_transform_to_paths,
                coordinates_precision: self.coordinates_precision,
                properties_precision: self.properties_precision,
                paths_coordinates_precision: self.paths_coordinates_precision,
                transforms_precision: self.transforms_precision,
            },
            WriteOptions {
                indent: Indent::from(self.indent),
                attributes_indent: Indent::from(self.attributes_indent),
                use_single_quote: self.use_single_quote,
                trim_hex_colors: self.trim_hex_colors,
                write_hidden_attributes: self.write_hidden_attributes,
                remove_leading_zero: self.remove_leading_zero,
                use_compact_path_notation: self.use_compact_path_notation,
                join_arc_to_flags: self.join_arc_to_flags,
                remove_duplicated_path_commands: self.remove_duplicated_path_commands,
                use_implicit_lineto_commands: self.use_implicit_lineto_commands,
                simplify_transform_matrices: self.simplify_transform_matrices,
                list_separator: ListSeparator::from(self.list_separator),
                attributes_order: AttributesOrder::from(self.attributes_order),
            },
            NodeSvgCleanerFlags {
                multipass: self.multipass,
                allow_bigger_file: self.allow_bigger_file,
                append_newline: self.append_newline,
            },
        )
    }
}

impl Default for SvgCleanerOptions {
    fn default() -> (options: Self)
        ensures
            options == SvgCleanerOptions::defaults(),
    {
        SvgCleanerOptions {
            parse_comments: true,
            parse_declarations: true,
            parse_unknown_elements: true,
            parse_unknown_attributes: true,
            parse_px_unit: true,
            skip_unresolved_classes: true,
            skip_invalid_attributes: false,
            skip_invalid_css: false,
            skip_paint_fallback: false,

            indent: IndentFork::NoIndent,
            attributes_indent: IndentFork::NoIndent,
            use_single_quote: false,
            trim_hex_colors: true,
            write_hidden_attributes: true,
            remove_leading_zero: true,
            use_compact_path_notation: true,
            join_arc_to_flags: false,
            remove_duplicated_path_commands: true,
            use_implicit_lineto_commands: true,
            simplify_transform_matrices: true,
            list_separator: ListSeparatorFork::Space,
            attributes_order: AttributesOrderFork::AsIs,

            remove_unused_defs: true,
            convert_shapes: true,
            remove_title: true,
            remove_desc: true,
            remove_metadata: true,
            remove_dupl_linear_gradients: true,
            remove_dupl_radial_gradients: true,
            remove_dupl_fe_gaussian_blur: true,
            ungroup_groups: true,
            ungroup_defs: true,
            group_by_style: true,
            merge_gradients: true,
            regroup_gradient_stops: true,
            remove_invalid_stops: true,
            remove_invisible_elements: true,
            resolve_use: true,
            remove_version: true,
            remove_unreferenced_ids: true,
            trim_ids: true,
            remove_text_attributes: true,
            remove_unused_coordinates: true,
            remove_default_attributes: true,
            remove_xmlns_xlink_attribute: true,
            remove_needless_attributes: true,
            remove_gradient_attributes: false,
            join_style_attributes: StyleJoinModeFork::NoJoin,
            apply_transform_to_gradients: true,
            apply_transform_to_shapes: true,
            paths_to_relative: true,
            remove_unused_segments: true,
            convert_segments: true,
            apply_transform_to_paths: false,
            coordinates_precision: 6,
            properties_precision: 6,
            paths_coordinates_precision: 8,
            transforms_precision: 8,

            multipass: false,
            allow_bigger_file: false,
            append_newline: false,
        }
    }
}

} // verus!

use anylist_rs::protobuf::anylist::pb_list_folder_item::ItemType;
use anylist_rs::protobuf::anylist::pb_list_folder_settings::{FolderSortPosition, SortOrder};
use anylist_rs::protobuf::anylist::pb_operation_metadata::OperationClass;
use anylist_rs::protobuf::anylist::pb_recipe_collection_settings::SortOrder as RecipeSortOrder;
use anylist_rs::protobuf::anylist::shopping_list::{ListItemSortOrder, NewListItemPosition};
use anylist_rs::protobuf::anylist::starter_list::Type;
use anylist_rs::protobuf::anylist::tag::TagType;
use anylist_rs::protobuf::anylist::{Double, PbListOperation, ShoppingList};

#[test]
fn tag_type_names() {
    assert_eq!(TagType::Generic.as_str_name(), "TAG_TYPE_GENERIC");
    assert_eq!(TagType::Product.as_str_name(), "TAG_TYPE_PRODUCT");
    assert_eq!(TagType::Category.as_str_name(), "TAG_TYPE_CATEGORY");
    assert_eq!(TagType::Attribute.as_str_name(), "TAG_TYPE_ATTRIBUTE");
    assert_eq!(TagType::from_str_name("TAG_TYPE_CATEGORY"), Some(TagType::Category));
    assert_eq!(TagType::from_str_name("Category"), None);
    assert_eq!(TagType::from_str_name(""), None);
}

#[test]
fn operation_class_names_and_numbers() {
    let all = [
        (OperationClass::UndefinedOperation, "UndefinedOperation", 0),
        (OperationClass::StoreOperation, "StoreOperation", 1),
        (OperationClass::StoreFilterOperation, "StoreFilterOperation", 2),
        (OperationClass::ListCategoryOperation, "ListCategoryOperation", 3),
        (OperationClass::ListCategoryGroupOperation, "ListCategoryGroupOperation", 4),
        (OperationClass::ListCategorizationRuleOperation, "ListCategorizationRuleOperation", 5),
    ];
    for (value, name, number) in all {
        assert_eq!(value.as_str_name(), name);
        assert_eq!(OperationClass::from_str_name(name), Some(value));
        assert_eq!(value.to_i32(), number);
        assert_eq!(value as i32, number);
        assert_eq!(OperationClass::from_i32(number), Some(value));
    }
    assert_eq!(OperationClass::from_i32(6), None);
    assert_eq!(OperationClass::from_i32(-1), None);
    assert_eq!(OperationClass::from_str_name("storeoperation"), None);
}

#[test]
fn the_two_sort_orders_are_distinct_types() {
    assert_eq!(SortOrder::ManualSortOrder.as_str_name(), "ManualSortOrder");
    assert_eq!(SortOrder::from_str_name("AlphabeticalSortOrder"), Some(SortOrder::AlphabeticalSortOrder));
    assert_eq!(SortOrder::from_str_name("RatingSortOrder"), None);
    assert_eq!(RecipeSortOrder::from_str_name("RatingSortOrder"), Some(RecipeSortOrder::RatingSortOrder));
    assert_eq!(RecipeSortOrder::CookTimeSortOrder.as_str_name(), "CookTimeSortOrder");
    assert_eq!(RecipeSortOrder::CookTimeSortOrder.to_i32(), 5);
    assert_eq!(RecipeSortOrder::from_i32(3), Some(RecipeSortOrder::DateCreatedSortOrder));
    assert_eq!(RecipeSortOrder::from_str_name("PrepTimeSortOrder"), Some(RecipeSortOrder::PrepTimeSortOrder));
}

#[test]
fn remaining_enumerations_round_trip() {
    for value in [ListItemSortOrder::Manual, ListItemSortOrder::Alphabetical] {
        assert_eq!(ListItemSortOrder::from_str_name(value.as_str_name()), Some(value));
        assert_eq!(ListItemSortOrder::from_i32(value.to_i32()), Some(value));
    }
    for value in [NewListItemPosition::Bottom, NewListItemPosition::Top] {
        assert_eq!(NewListItemPosition::from_str_name(value.as_str_name()), Some(value));
    }
    for value in [ItemType::ListType, ItemType::FolderType] {
        assert_eq!(ItemType::from_str_name(value.as_str_name()), Some(value));
    }
    for value in [FolderSortPosition::AfterLists, FolderSortPosition::BeforeLists, FolderSortPosition::WithLists] {
        assert_eq!(FolderSortPosition::from_str_name(value.as_str_name()), Some(value));
    }
    for value in [Type::UserType, Type::RecentItemsType, Type::FavoriteItemsType] {
        assert_eq!(Type::from_str_name(value.as_str_name()), Some(value));
    }
    assert_eq!(FolderSortPosition::WithLists.as_str_name(), "FolderSortPositionWithLists");
    assert_eq!(FolderSortPosition::from_str_name("WithLists"), None);
    assert_eq!(Type::FavoriteItemsType.to_i32(), 2);
    assert_eq!(NewListItemPosition::Top.as_str_name(), "Top");
    assert_eq!(ListItemSortOrder::from_str_name("Top"), None);
}

#[test]
fn default_messages_have_no_field_set() {
    let op = PbListOperation::default();
    assert_eq!(op.metadata, None);
    assert_eq!(op.list_id, None);
    assert_eq!(op.list_item, None);
    assert!(op.sorted_store_ids.is_empty());
    assert!(op.updated_categorization_rules.is_empty());
    let list = ShoppingList::default();
    assert_eq!(list.identifier, "");
    assert_eq!(list.timestamp, None);
    assert!(list.items.is_empty());
}

#[test]
fn doubles_keep_their_bits() {
    for value in [0.0f64, -0.0, 1.0, 1700000000.123, f64::MAX, f64::INFINITY] {
        let carried = Double::from_bits(value.to_bits());
        assert_eq!(carried.to_bits(), value.to_bits());
        assert_eq!(f64::from_bits(carried.to_bits()).to_bits(), value.to_bits());
    }
    assert_eq!(Double::from_bits(anylist_rs::protobuf::anylist::double::ONE_BITS).to_bits(), 1.0f64.to_bits());
}
